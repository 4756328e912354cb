//! The gateway's data model: fixed-width GB18030 byte fields grouped into
//! request and response records, with verified constructors and builders.

use vstd::prelude::*;

use crate::encoding::{gb18030_decoding, gb18030_encoding, spec_fixed_bytes, spec_trim_nulls, GbkConverter};
use crate::error::CtpResult;

verus! {

/// Trader identifier (21 bytes).
pub type TraderIdType = [u8; 21];

/// Investor identifier (13 bytes).
pub type InvestorIdType = [u8; 13];

/// Broker identifier (11 bytes).
pub type BrokerIdType = [u8; 11];

/// Broker short name (9 bytes).
pub type BrokerAbbrType = [u8; 9];

/// Broker name (81 bytes).
pub type BrokerNameType = [u8; 81];

/// Instrument identifier (31 bytes).
pub type InstrumentIdType = [u8; 31];

/// Password (41 bytes).
pub type PasswordType = [u8; 41];

/// User identifier (16 bytes).
pub type UserIdType = [u8; 16];

/// Product information (11 bytes).
pub type ProductInfoType = [u8; 11];

/// Currency identifier (4 bytes).
pub type CurrencyIdType = [u8; 4];

/// Business kind (1 byte).
pub type BizTypeType = [u8; 1];

/// Account identifier (13 bytes).
pub type AccountIdType = [u8; 13];

/// Exchange identifier (9 bytes).
pub type ExchangeIdType = [u8; 9];

/// Investment-unit identifier (17 bytes).
pub type InvestUnitIdType = [u8; 17];

/// Protocol information (11 bytes).
pub type ProtocolInfoType = [u8; 11];

/// MAC address (21 bytes).
pub type MacAddressType = [u8; 21];

/// Authentication code (17 bytes).
pub type AuthCodeType = [u8; 17];

/// Application identifier (21 bytes).
pub type AppIdType = [u8; 21];

/// Client IP address (16 bytes).
pub type IpAddressType = [u8; 16];

/// Client IP port (6 bytes).
pub type IpPortType = [u8; 6];

/// Exchange order identifier (21 bytes).
pub type OrderSysIdType = [u8; 21];

/// Time of day (9 bytes).
pub type TimeType = [u8; 9];

/// Trade identifier (21 bytes).
pub type TradeIdType = [u8; 21];

/// Instrument identifier at the exchange (31 bytes).
pub type ExchangeInstIdType = [u8; 31];

/// Order-action reference (13 bytes).
pub type OrderActionRefType = [u8; 13];

/// Action flag.
pub type ActionFlagType = u8;

/// IP address (16 bytes).
pub type IPAddressType = [u8; 16];

/// Order reference (13 bytes).
pub type OrderRefType = [u8; 13];

/// Request identifier.
pub type RequestIdType = i32;

/// Front identifier.
pub type FrontIdType = i32;

/// Session identifier.
pub type SessionIdType = i32;

/// Business unit (21 bytes).
pub type BusinessUnitType = [u8; 21];

/// Client identifier (11 bytes).
pub type ClientIdType = [u8; 11];

/// Parked-order identifier (13 bytes).
pub type ParkedOrderIdType = [u8; 13];

/// Trading day (9 bytes).
pub type TradingDayType = [u8; 9];

/// Bank identifier (4 bytes).
pub type BankIdType = [u8; 4];

/// Bank branch identifier (5 bytes).
pub type BankBrchIdType = [u8; 5];

/// Bank name (101 bytes).
pub type BankNameType = [u8; 101];

/// Date (9 bytes).
pub type DateType = [u8; 9];

/// Installation identifier.
pub type InstallIdType = i32;

/// Local order identifier (13 bytes).
pub type OrderLocalIdType = [u8; 13];

/// Exchange participant identifier (11 bytes).
pub type ParticipantIdType = [u8; 11];

/// Order-action status.
pub type OrderActionStatusType = u8;

/// Error message (81 bytes).
pub type ErrorMsgType = [u8; 81];

/// Branch office identifier (9 bytes).
pub type BranchIdType = [u8; 9];

/// Volume.
pub type VolumeType = i32;

/// An all-zero byte field of width `n`.
pub open spec fn spec_zeroed(n: nat) -> Seq<u8> {
    Seq::new(n, |i: int| 0u8)
}

/// The encoding of `s` framed into an `n`-byte field: truncated or
/// null-padded as needed.
pub open spec fn spec_field(s: Seq<char>, n: nat) -> Seq<u8> {
    spec_fixed_bytes(gb18030_encoding(s), n)
}

/// How a market-data stream resumes after reconnection.
#[derive(Debug, Clone, Copy, PartialEq, Eq)]
pub enum ResumeType {
    /// Restart from the beginning of the stream.
    Restart,
    /// Resume from the start of the trading day.
    Resume,
    /// Resume from the last received message.
    Quick,
    /// Deliver only messages after login.
    LoginOnly,
}

impl Default for ResumeType {
    fn default() -> (r: Self)
        ensures
            r == ResumeType::Restart,
    {
        ResumeType::Restart
    }
}

/// Conversion between a fixed-width GB18030 byte field and UTF-8 text.
pub trait StringConvert: Sized {
    /// The field's bytes, for specification purposes.
    spec fn bytes_view(&self) -> Seq<u8>;

    /// Decodes the field, ignoring its null padding. Always succeeds.
    fn to_utf8_string(&self) -> (r: CtpResult<String>)
        ensures
            r matches Ok(s) && s@ == gb18030_decoding(spec_trim_nulls(self.bytes_view())),
    ;

    /// Encodes `s` into a field, truncating or null-padding to the field's
    /// width. Always succeeds.
    fn from_utf8_string(s: &str) -> (r: CtpResult<Self>)
        ensures
            r matches Ok(v) && v.bytes_view() == spec_fixed_bytes(
                gb18030_encoding(s@),
                v.bytes_view().len(),
            ),
    ;
}

impl<const N: usize> StringConvert for [u8; N] {
    open spec fn bytes_view(&self) -> Seq<u8> {
        self@
    }

    fn to_utf8_string(&self) -> (r: CtpResult<String>) {
        GbkConverter::fixed_bytes_to_utf8(self)
    }

    fn from_utf8_string(s: &str) -> (r: CtpResult<Self>) {
        GbkConverter::utf8_to_fixed_bytes::<N>(s)
    }
}

/// The gateway's response-status envelope: a numeric error code and a
/// GB18030 message. Code zero means success.
#[derive(Debug, Clone, Copy)]
pub struct RspInfoField {
    /// Vendor error code; zero on success.
    pub error_id: i32,
    /// Error message, GB18030, null-padded.
    pub error_msg: ErrorMsgType,
}

impl Default for RspInfoField {
    fn default() -> (r: Self)
        ensures
            r.error_id == 0,
            r.error_msg@ == spec_zeroed(81),
    {
        let r = RspInfoField { error_id: 0, error_msg: [0u8; 81] };
        proof {
            assert(r.error_msg@ =~= spec_zeroed(81));
        }
        r
    }
}

impl RspInfoField {
    /// Decodes the error message to UTF-8. Always succeeds.
    pub fn get_error_msg(&self) -> (r: CtpResult<String>)
        ensures
            r matches Ok(s) && s@ == gb18030_decoding(spec_trim_nulls(self.error_msg@)),
    {
        GbkConverter::fixed_bytes_to_utf8(&self.error_msg)
    }

    /// True exactly when the error code is zero.
    pub fn is_success(&self) -> (r: bool)
        ensures
            r == (self.error_id == 0),
    {
        self.error_id == 0
    }
}

/// A login response: trading day, session coordinates and exchange times.
#[derive(Debug, Clone, Copy)]
pub struct RspUserLoginField {
    /// Trading day.
    pub trading_day: [u8; 9],
    /// Login time.
    pub login_time: [u8; 9],
    /// Broker identifier.
    pub broker_id: BrokerIdType,
    /// User identifier.
    pub user_id: UserIdType,
    /// Trading-system name.
    pub system_name: [u8; 41],
    /// Front identifier.
    pub front_id: i32,
    /// Session identifier.
    pub session_id: i32,
    /// Largest order reference so far.
    pub max_order_ref: [u8; 13],
    /// SHFE time.
    pub shfe_time: [u8; 9],
    /// DCE time.
    pub dce_time: [u8; 9],
    /// CZCE time.
    pub czce_time: [u8; 9],
    /// CFFEX time.
    pub ffex_time: [u8; 9],
    /// INE time.
    pub ine_time: [u8; 9],
}

impl Default for RspUserLoginField {
    fn default() -> (r: Self)
        ensures
            r.front_id == 0 && r.session_id == 0,
            r.trading_day@ == spec_zeroed(9) && r.login_time@ == spec_zeroed(9),
            r.broker_id@ == spec_zeroed(11) && r.user_id@ == spec_zeroed(16),
            r.system_name@ == spec_zeroed(41) && r.max_order_ref@ == spec_zeroed(13),
            r.shfe_time@ == spec_zeroed(9) && r.dce_time@ == spec_zeroed(9),
            r.czce_time@ == spec_zeroed(9) && r.ffex_time@ == spec_zeroed(9),
            r.ine_time@ == spec_zeroed(9),
    {
        let r = RspUserLoginField {
            trading_day: [0u8; 9],
            login_time: [0u8; 9],
            broker_id: [0u8; 11],
            user_id: [0u8; 16],
            system_name: [0u8; 41],
            front_id: 0,
            session_id: 0,
            max_order_ref: [0u8; 13],
            shfe_time: [0u8; 9],
            dce_time: [0u8; 9],
            czce_time: [0u8; 9],
            ffex_time: [0u8; 9],
            ine_time: [0u8; 9],
        };
        proof {
            assert(r.trading_day@ =~= spec_zeroed(9));
            assert(r.login_time@ =~= spec_zeroed(9));
            assert(r.broker_id@ =~= spec_zeroed(11));
            assert(r.user_id@ =~= spec_zeroed(16));
            assert(r.system_name@ =~= spec_zeroed(41));
            assert(r.max_order_ref@ =~= spec_zeroed(13));
            assert(r.shfe_time@ =~= spec_zeroed(9));
            assert(r.dce_time@ =~= spec_zeroed(9));
            assert(r.czce_time@ =~= spec_zeroed(9));
            assert(r.ffex_time@ =~= spec_zeroed(9));
            assert(r.ine_time@ =~= spec_zeroed(9));
        }
        r
    }
}

/// An authentication response.
#[derive(Debug, Clone, Copy)]
pub struct RspAuthenticateField {
    /// Broker identifier.
    pub broker_id: [u8; 11],
    /// User identifier.
    pub user_id: [u8; 16],
    /// Product information supplied by the client.
    pub user_product_info: [u8; 11],
    /// Application identifier.
    pub app_id: [u8; 33],
    /// Application kind.
    pub app_type: u8,
}

impl Default for RspAuthenticateField {
    fn default() -> (r: Self)
        ensures
            r.broker_id@ == spec_zeroed(11) && r.user_id@ == spec_zeroed(16),
            r.user_product_info@ == spec_zeroed(11) && r.app_id@ == spec_zeroed(33),
            r.app_type == 0,
    {
        let r = RspAuthenticateField {
            broker_id: [0u8; 11],
            user_id: [0u8; 16],
            user_product_info: [0u8; 11],
            app_id: [0u8; 33],
            app_type: 0,
        };
        proof {
            assert(r.broker_id@ =~= spec_zeroed(11));
            assert(r.user_id@ =~= spec_zeroed(16));
            assert(r.user_product_info@ =~= spec_zeroed(11));
            assert(r.app_id@ =~= spec_zeroed(33));
        }
        r
    }
}

/// An authentication request.
#[derive(Debug, Clone, Copy)]
pub struct ReqAuthenticateField {
    /// Broker identifier.
    pub broker_id: [u8; 11],
    /// User identifier.
    pub user_id: [u8; 16],
    /// Product information supplied by the client.
    pub user_product_info: [u8; 11],
    /// Authentication code.
    pub auth_code: [u8; 17],
    /// Application identifier.
    pub app_id: [u8; 33],
}

impl Default for ReqAuthenticateField {
    fn default() -> (r: Self)
        ensures
            r.broker_id@ == spec_zeroed(11) && r.user_id@ == spec_zeroed(16),
            r.user_product_info@ == spec_zeroed(11) && r.auth_code@ == spec_zeroed(17),
            r.app_id@ == spec_zeroed(33),
    {
        let r = ReqAuthenticateField {
            broker_id: [0u8; 11],
            user_id: [0u8; 16],
            user_product_info: [0u8; 11],
            auth_code: [0u8; 17],
            app_id: [0u8; 33],
        };
        proof {
            assert(r.broker_id@ =~= spec_zeroed(11));
            assert(r.user_id@ =~= spec_zeroed(16));
            assert(r.user_product_info@ =~= spec_zeroed(11));
            assert(r.auth_code@ =~= spec_zeroed(17));
            assert(r.app_id@ =~= spec_zeroed(33));
        }
        r
    }
}


/// A login request.
#[derive(Debug, Clone, Copy)]
pub struct ReqUserLoginField {
    /// Trading day.
    pub trading_day: [u8; 9],
    /// Broker identifier.
    pub broker_id: BrokerIdType,
    /// User identifier.
    pub user_id: UserIdType,
    /// Password.
    pub password: PasswordType,
    /// Product information supplied by the client.
    pub user_product_info: ProductInfoType,
    /// Product information of the interface.
    pub interface_product_info: ProductInfoType,
    /// Protocol information.
    pub protocol_info: ProtocolInfoType,
    /// MAC address.
    pub mac_address: MacAddressType,
    /// One-time password.
    pub one_time_password: PasswordType,
    /// Client IP address.
    pub client_ip_address: IpAddressType,
    /// Client IP port.
    pub client_ip_port: IpPortType,
    /// Login remark.
    pub login_remark: [u8; 36],
}

impl Default for ReqUserLoginField {
    fn default() -> (r: Self)
        ensures
            r.trading_day@ == spec_zeroed(9),
            r.broker_id@ == spec_zeroed(11),
            r.user_id@ == spec_zeroed(16),
            r.password@ == spec_zeroed(41),
            r.user_product_info@ == spec_zeroed(11),
            r.interface_product_info@ == spec_zeroed(11),
            r.protocol_info@ == spec_zeroed(11),
            r.mac_address@ == spec_zeroed(21),
            r.one_time_password@ == spec_zeroed(41),
            r.client_ip_address@ == spec_zeroed(16),
            r.client_ip_port@ == spec_zeroed(6),
            r.login_remark@ == spec_zeroed(36),
    {
        let r = ReqUserLoginField {
            trading_day: [0u8; 9],
            broker_id: [0u8; 11],
            user_id: [0u8; 16],
            password: [0u8; 41],
            user_product_info: [0u8; 11],
            interface_product_info: [0u8; 11],
            protocol_info: [0u8; 11],
            mac_address: [0u8; 21],
            one_time_password: [0u8; 41],
            client_ip_address: [0u8; 16],
            client_ip_port: [0u8; 6],
            login_remark: [0u8; 36],
        };
        proof {
            assert(r.trading_day@ =~= spec_zeroed(9));
            assert(r.broker_id@ =~= spec_zeroed(11));
            assert(r.user_id@ =~= spec_zeroed(16));
            assert(r.password@ =~= spec_zeroed(41));
            assert(r.user_product_info@ =~= spec_zeroed(11));
            assert(r.interface_product_info@ =~= spec_zeroed(11));
            assert(r.protocol_info@ =~= spec_zeroed(11));
            assert(r.mac_address@ =~= spec_zeroed(21));
            assert(r.one_time_password@ =~= spec_zeroed(41));
            assert(r.client_ip_address@ =~= spec_zeroed(16));
            assert(r.client_ip_port@ =~= spec_zeroed(6));
            assert(r.login_remark@ =~= spec_zeroed(36));
        }
        r
    }
}

impl ReqUserLoginField {
    /// Builds a login request from broker, user and password text. Always
    /// succeeds; every field is GB18030-encoded and framed to its width.
    pub fn new(broker_id: &str, user_id: &str, password: &str) -> (r: CtpResult<Self>)
        ensures
            r matches Ok(v) && v.broker_id@ == spec_field(broker_id@, 11) && v.user_id@
                == spec_field(user_id@, 16) && v.password@ == spec_field(password@, 41)
                && v.user_product_info@ == spec_zeroed(11) && v.interface_product_info@
                == spec_zeroed(11) && v.one_time_password@ == spec_zeroed(41) && v.mac_address@
                == spec_zeroed(21) && v.client_ip_address@ == spec_zeroed(16) && v.client_ip_port@
                == spec_zeroed(6) && v.trading_day@ == spec_zeroed(9) && v.protocol_info@
                == spec_zeroed(11) && v.login_remark@ == spec_zeroed(36),
    {
        let mut req = Self::default();
        req.broker_id = match GbkConverter::utf8_to_fixed_bytes::<11>(broker_id) {
            Ok(a) => a,
            Err(e) => { return Err(e) },
        };
        req.user_id = match GbkConverter::utf8_to_fixed_bytes::<16>(user_id) {
            Ok(a) => a,
            Err(e) => { return Err(e) },
        };
        req.password = match GbkConverter::utf8_to_fixed_bytes::<41>(password) {
            Ok(a) => a,
            Err(e) => { return Err(e) },
        };
        Ok(req)
    }

    /// Sets both product-information fields. Always succeeds.
    pub fn with_product_info(self, product_info: &str) -> (r: CtpResult<Self>)
        ensures
            r matches Ok(v) && v == (Self {
                user_product_info: v.user_product_info,
                interface_product_info: v.interface_product_info,
                ..self
            }) && v.user_product_info@ == spec_field(product_info@, 11)
                && v.interface_product_info@ == spec_field(product_info@, 11),
    {
        let mut req = self;
        req.user_product_info = match GbkConverter::utf8_to_fixed_bytes::<11>(product_info) {
            Ok(a) => a,
            Err(e) => { return Err(e) },
        };
        req.interface_product_info = match GbkConverter::utf8_to_fixed_bytes::<11>(product_info) {
            Ok(a) => a,
            Err(e) => { return Err(e) },
        };
        Ok(req)
    }

    /// Sets the one-time password from an authentication code. Always
    /// succeeds.
    pub fn with_auth_code(self, auth_code: &str) -> (r: CtpResult<Self>)
        ensures
            r matches Ok(v) && v == (Self { one_time_password: v.one_time_password, ..self })
                && v.one_time_password@ == spec_field(auth_code@, 41),
    {
        let mut req = self;
        req.one_time_password = match GbkConverter::utf8_to_fixed_bytes::<41>(auth_code) {
            Ok(a) => a,
            Err(e) => { return Err(e) },
        };
        Ok(req)
    }

    /// Sets the MAC address. Always succeeds.
    pub fn with_mac_address(self, mac_address: &str) -> (r: CtpResult<Self>)
        ensures
            r matches Ok(v) && v == (Self { mac_address: v.mac_address, ..self }) && v.mac_address@
                == spec_field(mac_address@, 21),
    {
        let mut req = self;
        req.mac_address = match GbkConverter::utf8_to_fixed_bytes::<21>(mac_address) {
            Ok(a) => a,
            Err(e) => { return Err(e) },
        };
        Ok(req)
    }

    /// Sets the client IP address and port. Always succeeds.
    pub fn with_client_ip(self, ip: &str, port: &str) -> (r: CtpResult<Self>)
        ensures
            r matches Ok(v) && v == (Self {
                client_ip_address: v.client_ip_address,
                client_ip_port: v.client_ip_port,
                ..self
            }) && v.client_ip_address@ == spec_field(ip@, 16) && v.client_ip_port@ == spec_field(
                port@,
                6,
            ),
    {
        let mut req = self;
        req.client_ip_address = match GbkConverter::utf8_to_fixed_bytes::<16>(ip) {
            Ok(a) => a,
            Err(e) => { return Err(e) },
        };
        req.client_ip_port = match GbkConverter::utf8_to_fixed_bytes::<6>(port) {
            Ok(a) => a,
            Err(e) => { return Err(e) },
        };
        Ok(req)
    }
}

/// A trading-account query.
#[derive(Debug, Clone, Copy)]
pub struct QryTradingAccountField {
    pub broker_id: [u8; 11],
    pub investor_id: [u8; 13],
    pub currency_id: [u8; 4],
    pub biz_type: [u8; 1],
    pub account_id: [u8; 13],
}

impl Default for QryTradingAccountField {
    fn default() -> (r: Self)
        ensures
            r.broker_id@ == spec_zeroed(11),
            r.investor_id@ == spec_zeroed(13),
            r.currency_id@ == spec_zeroed(4),
            r.biz_type@ == spec_zeroed(1),
            r.account_id@ == spec_zeroed(13),
    {
        let r = QryTradingAccountField {
            broker_id: [0u8; 11],
            investor_id: [0u8; 13],
            currency_id: [0u8; 4],
            biz_type: [0u8; 1],
            account_id: [0u8; 13],
        };
        proof {
            assert(r.broker_id@ =~= spec_zeroed(11));
            assert(r.investor_id@ =~= spec_zeroed(13));
            assert(r.currency_id@ =~= spec_zeroed(4));
            assert(r.biz_type@ =~= spec_zeroed(1));
            assert(r.account_id@ =~= spec_zeroed(13));
        }
        r
    }
}

impl QryTradingAccountField {
    /// Builds the request from text fields, GB18030-encoded and framed
    /// to their widths; unset fields stay zero. Always succeeds.
    pub fn new(broker_id: &str, investor_id: &str) -> (r: CtpResult<Self>)
        ensures
            r matches Ok(v) && v.broker_id@ == spec_field(broker_id@, 11) && v.investor_id@ == spec_field(investor_id@, 13) && v.currency_id@ == spec_zeroed(4) && v.biz_type@ == spec_zeroed(1) && v.account_id@ == spec_zeroed(13),
    {
        let mut req = Self::default();
        req.broker_id = match GbkConverter::utf8_to_fixed_bytes::<11>(broker_id) {
            Ok(b) => b,
            Err(e) => { return Err(e) },
        };
        req.investor_id = match GbkConverter::utf8_to_fixed_bytes::<13>(investor_id) {
            Ok(b) => b,
            Err(e) => { return Err(e) },
        };
        Ok(req)
    }

    /// Returns the request with the named field set from text. Always
    /// succeeds.
    pub fn with_currency(self, currency_id: &str) -> (r: CtpResult<Self>)
        ensures
            r matches Ok(v) && v == (Self { currency_id: v.currency_id, ..self }) && v.currency_id@ == spec_field(currency_id@, 4),
    {
        let mut req = self;
        req.currency_id = match GbkConverter::utf8_to_fixed_bytes::<4>(currency_id) {
            Ok(b) => b,
            Err(e) => { return Err(e) },
        };
        Ok(req)
    }
}

/// An investor-position query; an all-zero instrument queries every position.
#[derive(Debug, Clone, Copy)]
pub struct QryInvestorPositionField {
    pub broker_id: [u8; 11],
    pub investor_id: [u8; 13],
    pub instrument_id: [u8; 31],
    pub exchange_id: [u8; 9],
    pub invest_unit_id: [u8; 17],
}

impl Default for QryInvestorPositionField {
    fn default() -> (r: Self)
        ensures
            r.broker_id@ == spec_zeroed(11),
            r.investor_id@ == spec_zeroed(13),
            r.instrument_id@ == spec_zeroed(31),
            r.exchange_id@ == spec_zeroed(9),
            r.invest_unit_id@ == spec_zeroed(17),
    {
        let r = QryInvestorPositionField {
            broker_id: [0u8; 11],
            investor_id: [0u8; 13],
            instrument_id: [0u8; 31],
            exchange_id: [0u8; 9],
            invest_unit_id: [0u8; 17],
        };
        proof {
            assert(r.broker_id@ =~= spec_zeroed(11));
            assert(r.investor_id@ =~= spec_zeroed(13));
            assert(r.instrument_id@ =~= spec_zeroed(31));
            assert(r.exchange_id@ =~= spec_zeroed(9));
            assert(r.invest_unit_id@ =~= spec_zeroed(17));
        }
        r
    }
}

impl QryInvestorPositionField {
    /// Builds the request from text fields, GB18030-encoded and framed
    /// to their widths; unset fields stay zero. Always succeeds.
    pub fn new(broker_id: &str, investor_id: &str) -> (r: CtpResult<Self>)
        ensures
            r matches Ok(v) && v.broker_id@ == spec_field(broker_id@, 11) && v.investor_id@ == spec_field(investor_id@, 13) && v.instrument_id@ == spec_zeroed(31) && v.exchange_id@ == spec_zeroed(9) && v.invest_unit_id@ == spec_zeroed(17),
    {
        let mut req = Self::default();
        req.broker_id = match GbkConverter::utf8_to_fixed_bytes::<11>(broker_id) {
            Ok(b) => b,
            Err(e) => { return Err(e) },
        };
        req.investor_id = match GbkConverter::utf8_to_fixed_bytes::<13>(investor_id) {
            Ok(b) => b,
            Err(e) => { return Err(e) },
        };
        Ok(req)
    }

    /// Returns the request with the named field set from text. Always
    /// succeeds.
    pub fn with_instrument_id(self, instrument_id: &str) -> (r: CtpResult<Self>)
        ensures
            r matches Ok(v) && v == (Self { instrument_id: v.instrument_id, ..self }) && v.instrument_id@ == spec_field(instrument_id@, 31),
    {
        let mut req = self;
        req.instrument_id = match GbkConverter::utf8_to_fixed_bytes::<31>(instrument_id) {
            Ok(b) => b,
            Err(e) => { return Err(e) },
        };
        Ok(req)
    }
}

/// An order query.
#[derive(Debug, Clone, Copy)]
pub struct QryOrderField {
    pub broker_id: [u8; 11],
    pub investor_id: [u8; 13],
    pub instrument_id: [u8; 31],
    pub exchange_id: [u8; 9],
    pub order_sys_id: [u8; 21],
    pub insert_time_start: [u8; 9],
    pub insert_time_end: [u8; 9],
    pub invest_unit_id: [u8; 17],
}

impl Default for QryOrderField {
    fn default() -> (r: Self)
        ensures
            r.broker_id@ == spec_zeroed(11),
            r.investor_id@ == spec_zeroed(13),
            r.instrument_id@ == spec_zeroed(31),
            r.exchange_id@ == spec_zeroed(9),
            r.order_sys_id@ == spec_zeroed(21),
            r.insert_time_start@ == spec_zeroed(9),
            r.insert_time_end@ == spec_zeroed(9),
            r.invest_unit_id@ == spec_zeroed(17),
    {
        let r = QryOrderField {
            broker_id: [0u8; 11],
            investor_id: [0u8; 13],
            instrument_id: [0u8; 31],
            exchange_id: [0u8; 9],
            order_sys_id: [0u8; 21],
            insert_time_start: [0u8; 9],
            insert_time_end: [0u8; 9],
            invest_unit_id: [0u8; 17],
        };
        proof {
            assert(r.broker_id@ =~= spec_zeroed(11));
            assert(r.investor_id@ =~= spec_zeroed(13));
            assert(r.instrument_id@ =~= spec_zeroed(31));
            assert(r.exchange_id@ =~= spec_zeroed(9));
            assert(r.order_sys_id@ =~= spec_zeroed(21));
            assert(r.insert_time_start@ =~= spec_zeroed(9));
            assert(r.insert_time_end@ =~= spec_zeroed(9));
            assert(r.invest_unit_id@ =~= spec_zeroed(17));
        }
        r
    }
}

impl QryOrderField {
    /// Builds the request from text fields, GB18030-encoded and framed
    /// to their widths; unset fields stay zero. Always succeeds.
    pub fn new(broker_id: &str, investor_id: &str) -> (r: CtpResult<Self>)
        ensures
            r matches Ok(v) && v.broker_id@ == spec_field(broker_id@, 11) && v.investor_id@ == spec_field(investor_id@, 13) && v.instrument_id@ == spec_zeroed(31) && v.exchange_id@ == spec_zeroed(9) && v.order_sys_id@ == spec_zeroed(21) && v.insert_time_start@ == spec_zeroed(9) && v.insert_time_end@ == spec_zeroed(9) && v.invest_unit_id@ == spec_zeroed(17),
    {
        let mut req = Self::default();
        req.broker_id = match GbkConverter::utf8_to_fixed_bytes::<11>(broker_id) {
            Ok(b) => b,
            Err(e) => { return Err(e) },
        };
        req.investor_id = match GbkConverter::utf8_to_fixed_bytes::<13>(investor_id) {
            Ok(b) => b,
            Err(e) => { return Err(e) },
        };
        Ok(req)
    }

    /// Returns the request with the named field set from text. Always
    /// succeeds.
    pub fn with_instrument_id(self, instrument_id: &str) -> (r: CtpResult<Self>)
        ensures
            r matches Ok(v) && v == (Self { instrument_id: v.instrument_id, ..self }) && v.instrument_id@ == spec_field(instrument_id@, 31),
    {
        let mut req = self;
        req.instrument_id = match GbkConverter::utf8_to_fixed_bytes::<31>(instrument_id) {
            Ok(b) => b,
            Err(e) => { return Err(e) },
        };
        Ok(req)
    }
}

/// A trade query.
#[derive(Debug, Clone, Copy)]
pub struct QryTradeField {
    pub broker_id: [u8; 11],
    pub investor_id: [u8; 13],
    pub instrument_id: [u8; 31],
    pub exchange_id: [u8; 9],
    pub trade_id: [u8; 21],
    pub trade_time_start: [u8; 9],
    pub trade_time_end: [u8; 9],
    pub invest_unit_id: [u8; 17],
}

impl Default for QryTradeField {
    fn default() -> (r: Self)
        ensures
            r.broker_id@ == spec_zeroed(11),
            r.investor_id@ == spec_zeroed(13),
            r.instrument_id@ == spec_zeroed(31),
            r.exchange_id@ == spec_zeroed(9),
            r.trade_id@ == spec_zeroed(21),
            r.trade_time_start@ == spec_zeroed(9),
            r.trade_time_end@ == spec_zeroed(9),
            r.invest_unit_id@ == spec_zeroed(17),
    {
        let r = QryTradeField {
            broker_id: [0u8; 11],
            investor_id: [0u8; 13],
            instrument_id: [0u8; 31],
            exchange_id: [0u8; 9],
            trade_id: [0u8; 21],
            trade_time_start: [0u8; 9],
            trade_time_end: [0u8; 9],
            invest_unit_id: [0u8; 17],
        };
        proof {
            assert(r.broker_id@ =~= spec_zeroed(11));
            assert(r.investor_id@ =~= spec_zeroed(13));
            assert(r.instrument_id@ =~= spec_zeroed(31));
            assert(r.exchange_id@ =~= spec_zeroed(9));
            assert(r.trade_id@ =~= spec_zeroed(21));
            assert(r.trade_time_start@ =~= spec_zeroed(9));
            assert(r.trade_time_end@ =~= spec_zeroed(9));
            assert(r.invest_unit_id@ =~= spec_zeroed(17));
        }
        r
    }
}

impl QryTradeField {
    /// Builds the request from text fields, GB18030-encoded and framed
    /// to their widths; unset fields stay zero. Always succeeds.
    pub fn new(broker_id: &str, investor_id: &str) -> (r: CtpResult<Self>)
        ensures
            r matches Ok(v) && v.broker_id@ == spec_field(broker_id@, 11) && v.investor_id@ == spec_field(investor_id@, 13) && v.instrument_id@ == spec_zeroed(31) && v.exchange_id@ == spec_zeroed(9) && v.trade_id@ == spec_zeroed(21) && v.trade_time_start@ == spec_zeroed(9) && v.trade_time_end@ == spec_zeroed(9) && v.invest_unit_id@ == spec_zeroed(17),
    {
        let mut req = Self::default();
        req.broker_id = match GbkConverter::utf8_to_fixed_bytes::<11>(broker_id) {
            Ok(b) => b,
            Err(e) => { return Err(e) },
        };
        req.investor_id = match GbkConverter::utf8_to_fixed_bytes::<13>(investor_id) {
            Ok(b) => b,
            Err(e) => { return Err(e) },
        };
        Ok(req)
    }

    /// Returns the request with the named field set from text. Always
    /// succeeds.
    pub fn with_instrument_id(self, instrument_id: &str) -> (r: CtpResult<Self>)
        ensures
            r matches Ok(v) && v == (Self { instrument_id: v.instrument_id, ..self }) && v.instrument_id@ == spec_field(instrument_id@, 31),
    {
        let mut req = self;
        req.instrument_id = match GbkConverter::utf8_to_fixed_bytes::<31>(instrument_id) {
            Ok(b) => b,
            Err(e) => { return Err(e) },
        };
        Ok(req)
    }
}

/// An instrument query; empty fields match everything.
#[derive(Debug, Clone, Copy)]
pub struct QryInstrumentField {
    pub instrument_id: [u8; 31],
    pub exchange_id: [u8; 9],
    pub exchange_inst_id: [u8; 31],
    pub product_id: [u8; 31],
}

impl Default for QryInstrumentField {
    fn default() -> (r: Self)
        ensures
            r.instrument_id@ == spec_zeroed(31),
            r.exchange_id@ == spec_zeroed(9),
            r.exchange_inst_id@ == spec_zeroed(31),
            r.product_id@ == spec_zeroed(31),
    {
        let r = QryInstrumentField {
            instrument_id: [0u8; 31],
            exchange_id: [0u8; 9],
            exchange_inst_id: [0u8; 31],
            product_id: [0u8; 31],
        };
        proof {
            assert(r.instrument_id@ =~= spec_zeroed(31));
            assert(r.exchange_id@ =~= spec_zeroed(9));
            assert(r.exchange_inst_id@ =~= spec_zeroed(31));
            assert(r.product_id@ =~= spec_zeroed(31));
        }
        r
    }
}

impl QryInstrumentField {
    /// Builds an empty query matching everything.
    pub fn new() -> (r: Self)
        ensures
                r.instrument_id@ == spec_zeroed(31),
                r.exchange_id@ == spec_zeroed(9),
                r.exchange_inst_id@ == spec_zeroed(31),
                r.product_id@ == spec_zeroed(31),
    {
        Self::default()
    }

    /// Returns the request with the named field set from text. Always
    /// succeeds.
    pub fn with_instrument_id(self, instrument_id: &str) -> (r: CtpResult<Self>)
        ensures
            r matches Ok(v) && v == (Self { instrument_id: v.instrument_id, ..self }) && v.instrument_id@ == spec_field(instrument_id@, 31),
    {
        let mut req = self;
        req.instrument_id = match GbkConverter::utf8_to_fixed_bytes::<31>(instrument_id) {
            Ok(b) => b,
            Err(e) => { return Err(e) },
        };
        Ok(req)
    }

    /// Returns the request with the named field set from text. Always
    /// succeeds.
    pub fn with_exchange_id(self, exchange_id: &str) -> (r: CtpResult<Self>)
        ensures
            r matches Ok(v) && v == (Self { exchange_id: v.exchange_id, ..self }) && v.exchange_id@ == spec_field(exchange_id@, 9),
    {
        let mut req = self;
        req.exchange_id = match GbkConverter::utf8_to_fixed_bytes::<9>(exchange_id) {
            Ok(b) => b,
            Err(e) => { return Err(e) },
        };
        Ok(req)
    }
}

/// An instrument margin-rate query.
#[derive(Debug, Clone, Copy)]
pub struct QryInstrumentMarginRateField {
    pub broker_id: [u8; 11],
    pub investor_id: [u8; 13],
    pub instrument_id: [u8; 31],
    pub hedge_flag: u8,
    pub exchange_id: [u8; 9],
    pub invest_unit_id: [u8; 17],
}

impl Default for QryInstrumentMarginRateField {
    fn default() -> (r: Self)
        ensures
            r.broker_id@ == spec_zeroed(11),
            r.investor_id@ == spec_zeroed(13),
            r.instrument_id@ == spec_zeroed(31),
            r.hedge_flag == 0,
            r.exchange_id@ == spec_zeroed(9),
            r.invest_unit_id@ == spec_zeroed(17),
    {
        let r = QryInstrumentMarginRateField {
            broker_id: [0u8; 11],
            investor_id: [0u8; 13],
            instrument_id: [0u8; 31],
            hedge_flag: 0,
            exchange_id: [0u8; 9],
            invest_unit_id: [0u8; 17],
        };
        proof {
            assert(r.broker_id@ =~= spec_zeroed(11));
            assert(r.investor_id@ =~= spec_zeroed(13));
            assert(r.instrument_id@ =~= spec_zeroed(31));
            assert(r.exchange_id@ =~= spec_zeroed(9));
            assert(r.invest_unit_id@ =~= spec_zeroed(17));
        }
        r
    }
}

impl QryInstrumentMarginRateField {
    /// Builds the request from text fields, GB18030-encoded and framed
    /// to their widths; unset fields stay zero. Always succeeds.
    pub fn new(broker_id: &str, investor_id: &str, instrument_id: &str) -> (r: CtpResult<Self>)
        ensures
            r matches Ok(v) && v.broker_id@ == spec_field(broker_id@, 11) && v.investor_id@ == spec_field(investor_id@, 13) && v.instrument_id@ == spec_field(instrument_id@, 31) && v.hedge_flag == 0 && v.exchange_id@ == spec_zeroed(9) && v.invest_unit_id@ == spec_zeroed(17),
    {
        let mut req = Self::default();
        req.broker_id = match GbkConverter::utf8_to_fixed_bytes::<11>(broker_id) {
            Ok(b) => b,
            Err(e) => { return Err(e) },
        };
        req.investor_id = match GbkConverter::utf8_to_fixed_bytes::<13>(investor_id) {
            Ok(b) => b,
            Err(e) => { return Err(e) },
        };
        req.instrument_id = match GbkConverter::utf8_to_fixed_bytes::<31>(instrument_id) {
            Ok(b) => b,
            Err(e) => { return Err(e) },
        };
        Ok(req)
    }

    /// Returns the request with the named flag set.
    pub fn with_hedge_flag(self, hedge_flag: u8) -> (r: Self)
        ensures
            r == (Self { hedge_flag: hedge_flag, ..self }),
    {
        let mut req = self;
        req.hedge_flag = hedge_flag;
        req
    }

    /// Returns the request with the named field set from text. Always
    /// succeeds.
    pub fn with_exchange_id(self, exchange_id: &str) -> (r: CtpResult<Self>)
        ensures
            r matches Ok(v) && v == (Self { exchange_id: v.exchange_id, ..self }) && v.exchange_id@ == spec_field(exchange_id@, 9),
    {
        let mut req = self;
        req.exchange_id = match GbkConverter::utf8_to_fixed_bytes::<9>(exchange_id) {
            Ok(b) => b,
            Err(e) => { return Err(e) },
        };
        Ok(req)
    }
}

/// An instrument commission-rate query.
#[derive(Debug, Clone, Copy)]
pub struct QryInstrumentCommissionRateField {
    pub broker_id: [u8; 11],
    pub investor_id: [u8; 13],
    pub instrument_id: [u8; 31],
    pub exchange_id: [u8; 9],
    pub invest_unit_id: [u8; 17],
}

impl Default for QryInstrumentCommissionRateField {
    fn default() -> (r: Self)
        ensures
            r.broker_id@ == spec_zeroed(11),
            r.investor_id@ == spec_zeroed(13),
            r.instrument_id@ == spec_zeroed(31),
            r.exchange_id@ == spec_zeroed(9),
            r.invest_unit_id@ == spec_zeroed(17),
    {
        let r = QryInstrumentCommissionRateField {
            broker_id: [0u8; 11],
            investor_id: [0u8; 13],
            instrument_id: [0u8; 31],
            exchange_id: [0u8; 9],
            invest_unit_id: [0u8; 17],
        };
        proof {
            assert(r.broker_id@ =~= spec_zeroed(11));
            assert(r.investor_id@ =~= spec_zeroed(13));
            assert(r.instrument_id@ =~= spec_zeroed(31));
            assert(r.exchange_id@ =~= spec_zeroed(9));
            assert(r.invest_unit_id@ =~= spec_zeroed(17));
        }
        r
    }
}

impl QryInstrumentCommissionRateField {
    /// Builds the request from text fields, GB18030-encoded and framed
    /// to their widths; unset fields stay zero. Always succeeds.
    pub fn new(broker_id: &str, investor_id: &str, instrument_id: &str) -> (r: CtpResult<Self>)
        ensures
            r matches Ok(v) && v.broker_id@ == spec_field(broker_id@, 11) && v.investor_id@ == spec_field(investor_id@, 13) && v.instrument_id@ == spec_field(instrument_id@, 31) && v.exchange_id@ == spec_zeroed(9) && v.invest_unit_id@ == spec_zeroed(17),
    {
        let mut req = Self::default();
        req.broker_id = match GbkConverter::utf8_to_fixed_bytes::<11>(broker_id) {
            Ok(b) => b,
            Err(e) => { return Err(e) },
        };
        req.investor_id = match GbkConverter::utf8_to_fixed_bytes::<13>(investor_id) {
            Ok(b) => b,
            Err(e) => { return Err(e) },
        };
        req.instrument_id = match GbkConverter::utf8_to_fixed_bytes::<31>(instrument_id) {
            Ok(b) => b,
            Err(e) => { return Err(e) },
        };
        Ok(req)
    }

    /// Returns the request with the named field set from text. Always
    /// succeeds.
    pub fn with_exchange_id(self, exchange_id: &str) -> (r: CtpResult<Self>)
        ensures
            r matches Ok(v) && v == (Self { exchange_id: v.exchange_id, ..self }) && v.exchange_id@ == spec_field(exchange_id@, 9),
    {
        let mut req = self;
        req.exchange_id = match GbkConverter::utf8_to_fixed_bytes::<9>(exchange_id) {
            Ok(b) => b,
            Err(e) => { return Err(e) },
        };
        Ok(req)
    }
}

/// An exchange query.
#[derive(Debug, Clone, Copy)]
pub struct QryExchangeField {
    pub exchange_id: [u8; 9],
}

impl Default for QryExchangeField {
    fn default() -> (r: Self)
        ensures
            r.exchange_id@ == spec_zeroed(9),
    {
        let r = QryExchangeField {
            exchange_id: [0u8; 9],
        };
        proof {
            assert(r.exchange_id@ =~= spec_zeroed(9));
        }
        r
    }
}

impl QryExchangeField {
    /// Builds an empty query matching everything.
    pub fn new() -> (r: Self)
        ensures
                r.exchange_id@ == spec_zeroed(9),
    {
        Self::default()
    }

    /// Returns the request with the named field set from text. Always
    /// succeeds.
    pub fn with_exchange_id(self, exchange_id: &str) -> (r: CtpResult<Self>)
        ensures
            r matches Ok(v) && v == (Self { exchange_id: v.exchange_id, ..self }) && v.exchange_id@ == spec_field(exchange_id@, 9),
    {
        let mut req = self;
        req.exchange_id = match GbkConverter::utf8_to_fixed_bytes::<9>(exchange_id) {
            Ok(b) => b,
            Err(e) => { return Err(e) },
        };
        Ok(req)
    }
}

/// A product query.
#[derive(Debug, Clone, Copy)]
pub struct QryProductField {
    pub product_id: [u8; 31],
    pub product_class: u8,
    pub exchange_id: [u8; 9],
}

impl Default for QryProductField {
    fn default() -> (r: Self)
        ensures
            r.product_id@ == spec_zeroed(31),
            r.product_class == 0,
            r.exchange_id@ == spec_zeroed(9),
    {
        let r = QryProductField {
            product_id: [0u8; 31],
            product_class: 0,
            exchange_id: [0u8; 9],
        };
        proof {
            assert(r.product_id@ =~= spec_zeroed(31));
            assert(r.exchange_id@ =~= spec_zeroed(9));
        }
        r
    }
}

impl QryProductField {
    /// Builds an empty query matching everything.
    pub fn new() -> (r: Self)
        ensures
                r.product_id@ == spec_zeroed(31),
                r.product_class == 0,
                r.exchange_id@ == spec_zeroed(9),
    {
        Self::default()
    }

    /// Returns the request with the named field set from text. Always
    /// succeeds.
    pub fn with_product_id(self, product_id: &str) -> (r: CtpResult<Self>)
        ensures
            r matches Ok(v) && v == (Self { product_id: v.product_id, ..self }) && v.product_id@ == spec_field(product_id@, 31),
    {
        let mut req = self;
        req.product_id = match GbkConverter::utf8_to_fixed_bytes::<31>(product_id) {
            Ok(b) => b,
            Err(e) => { return Err(e) },
        };
        Ok(req)
    }

    /// Returns the request with the named field set from text. Always
    /// succeeds.
    pub fn with_exchange_id(self, exchange_id: &str) -> (r: CtpResult<Self>)
        ensures
            r matches Ok(v) && v == (Self { exchange_id: v.exchange_id, ..self }) && v.exchange_id@ == spec_field(exchange_id@, 9),
    {
        let mut req = self;
        req.exchange_id = match GbkConverter::utf8_to_fixed_bytes::<9>(exchange_id) {
            Ok(b) => b,
            Err(e) => { return Err(e) },
        };
        Ok(req)
    }

    /// Returns the request with the named flag set.
    pub fn with_product_class(self, product_class: u8) -> (r: Self)
        ensures
            r == (Self { product_class: product_class, ..self }),
    {
        let mut req = self;
        req.product_class = product_class;
        req
    }
}

/// A settlement-information confirmation.
#[derive(Debug, Clone, Copy)]
pub struct SettlementInfoConfirmField {
    pub broker_id: [u8; 11],
    pub investor_id: [u8; 13],
    pub confirm_date: [u8; 9],
    pub confirm_time: [u8; 9],
    pub settlement_id: i32,
    pub account_id: [u8; 13],
    pub currency_id: [u8; 4],
}

impl Default for SettlementInfoConfirmField {
    fn default() -> (r: Self)
        ensures
            r.broker_id@ == spec_zeroed(11),
            r.investor_id@ == spec_zeroed(13),
            r.confirm_date@ == spec_zeroed(9),
            r.confirm_time@ == spec_zeroed(9),
            r.settlement_id == 0,
            r.account_id@ == spec_zeroed(13),
            r.currency_id@ == spec_zeroed(4),
    {
        let r = SettlementInfoConfirmField {
            broker_id: [0u8; 11],
            investor_id: [0u8; 13],
            confirm_date: [0u8; 9],
            confirm_time: [0u8; 9],
            settlement_id: 0,
            account_id: [0u8; 13],
            currency_id: [0u8; 4],
        };
        proof {
            assert(r.broker_id@ =~= spec_zeroed(11));
            assert(r.investor_id@ =~= spec_zeroed(13));
            assert(r.confirm_date@ =~= spec_zeroed(9));
            assert(r.confirm_time@ =~= spec_zeroed(9));
            assert(r.account_id@ =~= spec_zeroed(13));
            assert(r.currency_id@ =~= spec_zeroed(4));
        }
        r
    }
}

impl SettlementInfoConfirmField {
    /// Builds the request from text fields, GB18030-encoded and framed
    /// to their widths; unset fields stay zero. Always succeeds.
    pub fn new(broker_id: &str, investor_id: &str) -> (r: CtpResult<Self>)
        ensures
            r matches Ok(v) && v.broker_id@ == spec_field(broker_id@, 11) && v.investor_id@ == spec_field(investor_id@, 13) && v.confirm_date@ == spec_zeroed(9) && v.confirm_time@ == spec_zeroed(9) && v.settlement_id == 0 && v.account_id@ == spec_zeroed(13) && v.currency_id@ == spec_zeroed(4),
    {
        let mut req = Self::default();
        req.broker_id = match GbkConverter::utf8_to_fixed_bytes::<11>(broker_id) {
            Ok(b) => b,
            Err(e) => { return Err(e) },
        };
        req.investor_id = match GbkConverter::utf8_to_fixed_bytes::<13>(investor_id) {
            Ok(b) => b,
            Err(e) => { return Err(e) },
        };
        Ok(req)
    }

    /// Returns the request with the named field set from text. Always
    /// succeeds.
    pub fn with_account_id(self, account_id: &str) -> (r: CtpResult<Self>)
        ensures
            r matches Ok(v) && v == (Self { account_id: v.account_id, ..self }) && v.account_id@ == spec_field(account_id@, 13),
    {
        let mut req = self;
        req.account_id = match GbkConverter::utf8_to_fixed_bytes::<13>(account_id) {
            Ok(b) => b,
            Err(e) => { return Err(e) },
        };
        Ok(req)
    }
}

/// An exercise-declaration entry.
#[derive(Debug, Clone, Copy)]
pub struct InputExecOrderField {
    pub broker_id: [u8; 11],
    pub investor_id: [u8; 13],
    pub instrument_id: [u8; 31],
    pub exec_order_ref: [u8; 13],
    pub user_id: [u8; 16],
    pub volume: i32,
    pub request_id: i32,
    pub business_unit: [u8; 21],
    pub offset_flag: u8,
    pub hedge_flag: u8,
    pub action_type: u8,
    pub posidir: u8,
    pub reserve_position_flag: u8,
    pub close_flag: u8,
    pub exchange_id: [u8; 9],
    pub invest_unit_id: [u8; 17],
    pub account_id: [u8; 13],
    pub currency_id: [u8; 4],
    pub client_id: [u8; 11],
    pub ip_address: [u8; 16],
    pub mac_address: [u8; 21],
}

impl Default for InputExecOrderField {
    fn default() -> (r: Self)
        ensures
            r.broker_id@ == spec_zeroed(11),
            r.investor_id@ == spec_zeroed(13),
            r.instrument_id@ == spec_zeroed(31),
            r.exec_order_ref@ == spec_zeroed(13),
            r.user_id@ == spec_zeroed(16),
            r.volume == 0,
            r.request_id == 0,
            r.business_unit@ == spec_zeroed(21),
            r.offset_flag == 0,
            r.hedge_flag == 0,
            r.action_type == 0,
            r.posidir == 0,
            r.reserve_position_flag == 0,
            r.close_flag == 0,
            r.exchange_id@ == spec_zeroed(9),
            r.invest_unit_id@ == spec_zeroed(17),
            r.account_id@ == spec_zeroed(13),
            r.currency_id@ == spec_zeroed(4),
            r.client_id@ == spec_zeroed(11),
            r.ip_address@ == spec_zeroed(16),
            r.mac_address@ == spec_zeroed(21),
    {
        let r = InputExecOrderField {
            broker_id: [0u8; 11],
            investor_id: [0u8; 13],
            instrument_id: [0u8; 31],
            exec_order_ref: [0u8; 13],
            user_id: [0u8; 16],
            volume: 0,
            request_id: 0,
            business_unit: [0u8; 21],
            offset_flag: 0,
            hedge_flag: 0,
            action_type: 0,
            posidir: 0,
            reserve_position_flag: 0,
            close_flag: 0,
            exchange_id: [0u8; 9],
            invest_unit_id: [0u8; 17],
            account_id: [0u8; 13],
            currency_id: [0u8; 4],
            client_id: [0u8; 11],
            ip_address: [0u8; 16],
            mac_address: [0u8; 21],
        };
        proof {
            assert(r.broker_id@ =~= spec_zeroed(11));
            assert(r.investor_id@ =~= spec_zeroed(13));
            assert(r.instrument_id@ =~= spec_zeroed(31));
            assert(r.exec_order_ref@ =~= spec_zeroed(13));
            assert(r.user_id@ =~= spec_zeroed(16));
            assert(r.business_unit@ =~= spec_zeroed(21));
            assert(r.exchange_id@ =~= spec_zeroed(9));
            assert(r.invest_unit_id@ =~= spec_zeroed(17));
            assert(r.account_id@ =~= spec_zeroed(13));
            assert(r.currency_id@ =~= spec_zeroed(4));
            assert(r.client_id@ =~= spec_zeroed(11));
            assert(r.ip_address@ =~= spec_zeroed(16));
            assert(r.mac_address@ =~= spec_zeroed(21));
        }
        r
    }
}

impl InputExecOrderField {
    /// Builds the request from text fields, GB18030-encoded and framed
    /// to their widths; unset fields stay zero. Always succeeds.
    pub fn new(broker_id: &str, investor_id: &str, instrument_id: &str, exec_order_ref: &str, user_id: &str, volume: i32, action_type: u8) -> (r: CtpResult<Self>)
        ensures
            r matches Ok(v) && v.broker_id@ == spec_field(broker_id@, 11) && v.investor_id@ == spec_field(investor_id@, 13) && v.instrument_id@ == spec_field(instrument_id@, 31) && v.exec_order_ref@ == spec_field(exec_order_ref@, 13) && v.user_id@ == spec_field(user_id@, 16) && v.volume == volume && v.action_type == action_type && v.request_id == 0 && v.business_unit@ == spec_zeroed(21) && v.offset_flag == 0 && v.hedge_flag == 0 && v.posidir == 0 && v.reserve_position_flag == 0 && v.close_flag == 0 && v.exchange_id@ == spec_zeroed(9) && v.invest_unit_id@ == spec_zeroed(17) && v.account_id@ == spec_zeroed(13) && v.currency_id@ == spec_zeroed(4) && v.client_id@ == spec_zeroed(11) && v.ip_address@ == spec_zeroed(16) && v.mac_address@ == spec_zeroed(21),
    {
        let mut req = Self::default();
        req.broker_id = match GbkConverter::utf8_to_fixed_bytes::<11>(broker_id) {
            Ok(b) => b,
            Err(e) => { return Err(e) },
        };
        req.investor_id = match GbkConverter::utf8_to_fixed_bytes::<13>(investor_id) {
            Ok(b) => b,
            Err(e) => { return Err(e) },
        };
        req.instrument_id = match GbkConverter::utf8_to_fixed_bytes::<31>(instrument_id) {
            Ok(b) => b,
            Err(e) => { return Err(e) },
        };
        req.exec_order_ref = match GbkConverter::utf8_to_fixed_bytes::<13>(exec_order_ref) {
            Ok(b) => b,
            Err(e) => { return Err(e) },
        };
        req.user_id = match GbkConverter::utf8_to_fixed_bytes::<16>(user_id) {
            Ok(b) => b,
            Err(e) => { return Err(e) },
        };
        req.volume = volume;
        req.action_type = action_type;
        Ok(req)
    }
}

/// An exercise-declaration action.
#[derive(Debug, Clone, Copy)]
pub struct InputExecOrderActionField {
    pub broker_id: [u8; 11],
    pub investor_id: [u8; 13],
    pub exec_order_action_ref: [u8; 13],
    pub exec_order_ref: [u8; 13],
    pub request_id: i32,
    pub front_id: i32,
    pub session_id: i32,
    pub exchange_id: [u8; 9],
    pub exec_order_sys_id: [u8; 21],
    pub action_flag: u8,
    pub user_id: [u8; 16],
    pub instrument_id: [u8; 31],
    pub invest_unit_id: [u8; 17],
    pub ip_address: [u8; 16],
    pub mac_address: [u8; 21],
}

impl Default for InputExecOrderActionField {
    fn default() -> (r: Self)
        ensures
            r.broker_id@ == spec_zeroed(11),
            r.investor_id@ == spec_zeroed(13),
            r.exec_order_action_ref@ == spec_zeroed(13),
            r.exec_order_ref@ == spec_zeroed(13),
            r.request_id == 0,
            r.front_id == 0,
            r.session_id == 0,
            r.exchange_id@ == spec_zeroed(9),
            r.exec_order_sys_id@ == spec_zeroed(21),
            r.action_flag == 0,
            r.user_id@ == spec_zeroed(16),
            r.instrument_id@ == spec_zeroed(31),
            r.invest_unit_id@ == spec_zeroed(17),
            r.ip_address@ == spec_zeroed(16),
            r.mac_address@ == spec_zeroed(21),
    {
        let r = InputExecOrderActionField {
            broker_id: [0u8; 11],
            investor_id: [0u8; 13],
            exec_order_action_ref: [0u8; 13],
            exec_order_ref: [0u8; 13],
            request_id: 0,
            front_id: 0,
            session_id: 0,
            exchange_id: [0u8; 9],
            exec_order_sys_id: [0u8; 21],
            action_flag: 0,
            user_id: [0u8; 16],
            instrument_id: [0u8; 31],
            invest_unit_id: [0u8; 17],
            ip_address: [0u8; 16],
            mac_address: [0u8; 21],
        };
        proof {
            assert(r.broker_id@ =~= spec_zeroed(11));
            assert(r.investor_id@ =~= spec_zeroed(13));
            assert(r.exec_order_action_ref@ =~= spec_zeroed(13));
            assert(r.exec_order_ref@ =~= spec_zeroed(13));
            assert(r.exchange_id@ =~= spec_zeroed(9));
            assert(r.exec_order_sys_id@ =~= spec_zeroed(21));
            assert(r.user_id@ =~= spec_zeroed(16));
            assert(r.instrument_id@ =~= spec_zeroed(31));
            assert(r.invest_unit_id@ =~= spec_zeroed(17));
            assert(r.ip_address@ =~= spec_zeroed(16));
            assert(r.mac_address@ =~= spec_zeroed(21));
        }
        r
    }
}

impl InputExecOrderActionField {
    /// Builds the request from text fields, GB18030-encoded and framed
    /// to their widths; unset fields stay zero. Always succeeds.
    pub fn new(broker_id: &str, investor_id: &str, exec_order_action_ref: &str, exec_order_ref: &str, user_id: &str, action_flag: u8) -> (r: CtpResult<Self>)
        ensures
            r matches Ok(v) && v.broker_id@ == spec_field(broker_id@, 11) && v.investor_id@ == spec_field(investor_id@, 13) && v.exec_order_action_ref@ == spec_field(exec_order_action_ref@, 13) && v.exec_order_ref@ == spec_field(exec_order_ref@, 13) && v.user_id@ == spec_field(user_id@, 16) && v.action_flag == action_flag && v.request_id == 0 && v.front_id == 0 && v.session_id == 0 && v.exchange_id@ == spec_zeroed(9) && v.exec_order_sys_id@ == spec_zeroed(21) && v.instrument_id@ == spec_zeroed(31) && v.invest_unit_id@ == spec_zeroed(17) && v.ip_address@ == spec_zeroed(16) && v.mac_address@ == spec_zeroed(21),
    {
        let mut req = Self::default();
        req.broker_id = match GbkConverter::utf8_to_fixed_bytes::<11>(broker_id) {
            Ok(b) => b,
            Err(e) => { return Err(e) },
        };
        req.investor_id = match GbkConverter::utf8_to_fixed_bytes::<13>(investor_id) {
            Ok(b) => b,
            Err(e) => { return Err(e) },
        };
        req.exec_order_action_ref = match GbkConverter::utf8_to_fixed_bytes::<13>(exec_order_action_ref) {
            Ok(b) => b,
            Err(e) => { return Err(e) },
        };
        req.exec_order_ref = match GbkConverter::utf8_to_fixed_bytes::<13>(exec_order_ref) {
            Ok(b) => b,
            Err(e) => { return Err(e) },
        };
        req.user_id = match GbkConverter::utf8_to_fixed_bytes::<16>(user_id) {
            Ok(b) => b,
            Err(e) => { return Err(e) },
        };
        req.action_flag = action_flag;
        Ok(req)
    }
}

/// A quote-request entry.
#[derive(Debug, Clone, Copy)]
pub struct InputForQuoteField {
    pub broker_id: [u8; 11],
    pub investor_id: [u8; 13],
    pub instrument_id: [u8; 31],
    pub for_quote_ref: [u8; 13],
    pub user_id: [u8; 16],
    pub exchange_id: [u8; 9],
    pub invest_unit_id: [u8; 17],
    pub ip_address: [u8; 16],
    pub mac_address: [u8; 21],
}

impl Default for InputForQuoteField {
    fn default() -> (r: Self)
        ensures
            r.broker_id@ == spec_zeroed(11),
            r.investor_id@ == spec_zeroed(13),
            r.instrument_id@ == spec_zeroed(31),
            r.for_quote_ref@ == spec_zeroed(13),
            r.user_id@ == spec_zeroed(16),
            r.exchange_id@ == spec_zeroed(9),
            r.invest_unit_id@ == spec_zeroed(17),
            r.ip_address@ == spec_zeroed(16),
            r.mac_address@ == spec_zeroed(21),
    {
        let r = InputForQuoteField {
            broker_id: [0u8; 11],
            investor_id: [0u8; 13],
            instrument_id: [0u8; 31],
            for_quote_ref: [0u8; 13],
            user_id: [0u8; 16],
            exchange_id: [0u8; 9],
            invest_unit_id: [0u8; 17],
            ip_address: [0u8; 16],
            mac_address: [0u8; 21],
        };
        proof {
            assert(r.broker_id@ =~= spec_zeroed(11));
            assert(r.investor_id@ =~= spec_zeroed(13));
            assert(r.instrument_id@ =~= spec_zeroed(31));
            assert(r.for_quote_ref@ =~= spec_zeroed(13));
            assert(r.user_id@ =~= spec_zeroed(16));
            assert(r.exchange_id@ =~= spec_zeroed(9));
            assert(r.invest_unit_id@ =~= spec_zeroed(17));
            assert(r.ip_address@ =~= spec_zeroed(16));
            assert(r.mac_address@ =~= spec_zeroed(21));
        }
        r
    }
}

impl InputForQuoteField {
    /// Builds the request from text fields, GB18030-encoded and framed
    /// to their widths; unset fields stay zero. Always succeeds.
    pub fn new(broker_id: &str, investor_id: &str, instrument_id: &str, for_quote_ref: &str, user_id: &str) -> (r: CtpResult<Self>)
        ensures
            r matches Ok(v) && v.broker_id@ == spec_field(broker_id@, 11) && v.investor_id@ == spec_field(investor_id@, 13) && v.instrument_id@ == spec_field(instrument_id@, 31) && v.for_quote_ref@ == spec_field(for_quote_ref@, 13) && v.user_id@ == spec_field(user_id@, 16) && v.exchange_id@ == spec_zeroed(9) && v.invest_unit_id@ == spec_zeroed(17) && v.ip_address@ == spec_zeroed(16) && v.mac_address@ == spec_zeroed(21),
    {
        let mut req = Self::default();
        req.broker_id = match GbkConverter::utf8_to_fixed_bytes::<11>(broker_id) {
            Ok(b) => b,
            Err(e) => { return Err(e) },
        };
        req.investor_id = match GbkConverter::utf8_to_fixed_bytes::<13>(investor_id) {
            Ok(b) => b,
            Err(e) => { return Err(e) },
        };
        req.instrument_id = match GbkConverter::utf8_to_fixed_bytes::<31>(instrument_id) {
            Ok(b) => b,
            Err(e) => { return Err(e) },
        };
        req.for_quote_ref = match GbkConverter::utf8_to_fixed_bytes::<13>(for_quote_ref) {
            Ok(b) => b,
            Err(e) => { return Err(e) },
        };
        req.user_id = match GbkConverter::utf8_to_fixed_bytes::<16>(user_id) {
            Ok(b) => b,
            Err(e) => { return Err(e) },
        };
        Ok(req)
    }
}

/// A quote action.
#[derive(Debug, Clone, Copy)]
pub struct InputQuoteActionField {
    pub broker_id: [u8; 11],
    pub investor_id: [u8; 13],
    pub quote_action_ref: [u8; 13],
    pub quote_ref: [u8; 13],
    pub request_id: i32,
    pub front_id: i32,
    pub session_id: i32,
    pub exchange_id: [u8; 9],
    pub quote_sys_id: [u8; 21],
    pub action_flag: u8,
    pub user_id: [u8; 16],
    pub instrument_id: [u8; 31],
    pub invest_unit_id: [u8; 17],
    pub client_id: [u8; 11],
    pub ip_address: [u8; 16],
    pub mac_address: [u8; 21],
}

impl Default for InputQuoteActionField {
    fn default() -> (r: Self)
        ensures
            r.broker_id@ == spec_zeroed(11),
            r.investor_id@ == spec_zeroed(13),
            r.quote_action_ref@ == spec_zeroed(13),
            r.quote_ref@ == spec_zeroed(13),
            r.request_id == 0,
            r.front_id == 0,
            r.session_id == 0,
            r.exchange_id@ == spec_zeroed(9),
            r.quote_sys_id@ == spec_zeroed(21),
            r.action_flag == 0,
            r.user_id@ == spec_zeroed(16),
            r.instrument_id@ == spec_zeroed(31),
            r.invest_unit_id@ == spec_zeroed(17),
            r.client_id@ == spec_zeroed(11),
            r.ip_address@ == spec_zeroed(16),
            r.mac_address@ == spec_zeroed(21),
    {
        let r = InputQuoteActionField {
            broker_id: [0u8; 11],
            investor_id: [0u8; 13],
            quote_action_ref: [0u8; 13],
            quote_ref: [0u8; 13],
            request_id: 0,
            front_id: 0,
            session_id: 0,
            exchange_id: [0u8; 9],
            quote_sys_id: [0u8; 21],
            action_flag: 0,
            user_id: [0u8; 16],
            instrument_id: [0u8; 31],
            invest_unit_id: [0u8; 17],
            client_id: [0u8; 11],
            ip_address: [0u8; 16],
            mac_address: [0u8; 21],
        };
        proof {
            assert(r.broker_id@ =~= spec_zeroed(11));
            assert(r.investor_id@ =~= spec_zeroed(13));
            assert(r.quote_action_ref@ =~= spec_zeroed(13));
            assert(r.quote_ref@ =~= spec_zeroed(13));
            assert(r.exchange_id@ =~= spec_zeroed(9));
            assert(r.quote_sys_id@ =~= spec_zeroed(21));
            assert(r.user_id@ =~= spec_zeroed(16));
            assert(r.instrument_id@ =~= spec_zeroed(31));
            assert(r.invest_unit_id@ =~= spec_zeroed(17));
            assert(r.client_id@ =~= spec_zeroed(11));
            assert(r.ip_address@ =~= spec_zeroed(16));
            assert(r.mac_address@ =~= spec_zeroed(21));
        }
        r
    }
}

impl InputQuoteActionField {
    /// Builds the request from text fields, GB18030-encoded and framed
    /// to their widths; unset fields stay zero. Always succeeds.
    pub fn new(broker_id: &str, investor_id: &str, quote_action_ref: &str, quote_ref: &str, user_id: &str, action_flag: u8) -> (r: CtpResult<Self>)
        ensures
            r matches Ok(v) && v.broker_id@ == spec_field(broker_id@, 11) && v.investor_id@ == spec_field(investor_id@, 13) && v.quote_action_ref@ == spec_field(quote_action_ref@, 13) && v.quote_ref@ == spec_field(quote_ref@, 13) && v.user_id@ == spec_field(user_id@, 16) && v.action_flag == action_flag && v.request_id == 0 && v.front_id == 0 && v.session_id == 0 && v.exchange_id@ == spec_zeroed(9) && v.quote_sys_id@ == spec_zeroed(21) && v.instrument_id@ == spec_zeroed(31) && v.invest_unit_id@ == spec_zeroed(17) && v.client_id@ == spec_zeroed(11) && v.ip_address@ == spec_zeroed(16) && v.mac_address@ == spec_zeroed(21),
    {
        let mut req = Self::default();
        req.broker_id = match GbkConverter::utf8_to_fixed_bytes::<11>(broker_id) {
            Ok(b) => b,
            Err(e) => { return Err(e) },
        };
        req.investor_id = match GbkConverter::utf8_to_fixed_bytes::<13>(investor_id) {
            Ok(b) => b,
            Err(e) => { return Err(e) },
        };
        req.quote_action_ref = match GbkConverter::utf8_to_fixed_bytes::<13>(quote_action_ref) {
            Ok(b) => b,
            Err(e) => { return Err(e) },
        };
        req.quote_ref = match GbkConverter::utf8_to_fixed_bytes::<13>(quote_ref) {
            Ok(b) => b,
            Err(e) => { return Err(e) },
        };
        req.user_id = match GbkConverter::utf8_to_fixed_bytes::<16>(user_id) {
            Ok(b) => b,
            Err(e) => { return Err(e) },
        };
        req.action_flag = action_flag;
        Ok(req)
    }
}

/// A batch order action.
#[derive(Debug, Clone, Copy)]
pub struct InputBatchOrderActionField {
    pub broker_id: [u8; 11],
    pub investor_id: [u8; 13],
    pub order_action_ref: [u8; 13],
    pub request_id: i32,
    pub front_id: i32,
    pub session_id: i32,
    pub exchange_id: [u8; 9],
    pub user_id: [u8; 16],
    pub invest_unit_id: [u8; 17],
    pub ip_address: [u8; 16],
    pub mac_address: [u8; 21],
}

impl Default for InputBatchOrderActionField {
    fn default() -> (r: Self)
        ensures
            r.broker_id@ == spec_zeroed(11),
            r.investor_id@ == spec_zeroed(13),
            r.order_action_ref@ == spec_zeroed(13),
            r.request_id == 0,
            r.front_id == 0,
            r.session_id == 0,
            r.exchange_id@ == spec_zeroed(9),
            r.user_id@ == spec_zeroed(16),
            r.invest_unit_id@ == spec_zeroed(17),
            r.ip_address@ == spec_zeroed(16),
            r.mac_address@ == spec_zeroed(21),
    {
        let r = InputBatchOrderActionField {
            broker_id: [0u8; 11],
            investor_id: [0u8; 13],
            order_action_ref: [0u8; 13],
            request_id: 0,
            front_id: 0,
            session_id: 0,
            exchange_id: [0u8; 9],
            user_id: [0u8; 16],
            invest_unit_id: [0u8; 17],
            ip_address: [0u8; 16],
            mac_address: [0u8; 21],
        };
        proof {
            assert(r.broker_id@ =~= spec_zeroed(11));
            assert(r.investor_id@ =~= spec_zeroed(13));
            assert(r.order_action_ref@ =~= spec_zeroed(13));
            assert(r.exchange_id@ =~= spec_zeroed(9));
            assert(r.user_id@ =~= spec_zeroed(16));
            assert(r.invest_unit_id@ =~= spec_zeroed(17));
            assert(r.ip_address@ =~= spec_zeroed(16));
            assert(r.mac_address@ =~= spec_zeroed(21));
        }
        r
    }
}

impl InputBatchOrderActionField {
    /// Builds the request from text fields, GB18030-encoded and framed
    /// to their widths; unset fields stay zero. Always succeeds.
    pub fn new(broker_id: &str, investor_id: &str, order_action_ref: &str, user_id: &str, exchange_id: &str) -> (r: CtpResult<Self>)
        ensures
            r matches Ok(v) && v.broker_id@ == spec_field(broker_id@, 11) && v.investor_id@ == spec_field(investor_id@, 13) && v.order_action_ref@ == spec_field(order_action_ref@, 13) && v.user_id@ == spec_field(user_id@, 16) && v.exchange_id@ == spec_field(exchange_id@, 9) && v.request_id == 0 && v.front_id == 0 && v.session_id == 0 && v.invest_unit_id@ == spec_zeroed(17) && v.ip_address@ == spec_zeroed(16) && v.mac_address@ == spec_zeroed(21),
    {
        let mut req = Self::default();
        req.broker_id = match GbkConverter::utf8_to_fixed_bytes::<11>(broker_id) {
            Ok(b) => b,
            Err(e) => { return Err(e) },
        };
        req.investor_id = match GbkConverter::utf8_to_fixed_bytes::<13>(investor_id) {
            Ok(b) => b,
            Err(e) => { return Err(e) },
        };
        req.order_action_ref = match GbkConverter::utf8_to_fixed_bytes::<13>(order_action_ref) {
            Ok(b) => b,
            Err(e) => { return Err(e) },
        };
        req.user_id = match GbkConverter::utf8_to_fixed_bytes::<16>(user_id) {
            Ok(b) => b,
            Err(e) => { return Err(e) },
        };
        req.exchange_id = match GbkConverter::utf8_to_fixed_bytes::<9>(exchange_id) {
            Ok(b) => b,
            Err(e) => { return Err(e) },
        };
        Ok(req)
    }
}

/// Removal of a parked order.
#[derive(Debug, Clone, Copy)]
pub struct RemoveParkedOrderField {
    pub broker_id: [u8; 11],
    pub investor_id: [u8; 13],
    pub parked_order_id: [u8; 13],
    pub invest_unit_id: [u8; 17],
}

impl Default for RemoveParkedOrderField {
    fn default() -> (r: Self)
        ensures
            r.broker_id@ == spec_zeroed(11),
            r.investor_id@ == spec_zeroed(13),
            r.parked_order_id@ == spec_zeroed(13),
            r.invest_unit_id@ == spec_zeroed(17),
    {
        let r = RemoveParkedOrderField {
            broker_id: [0u8; 11],
            investor_id: [0u8; 13],
            parked_order_id: [0u8; 13],
            invest_unit_id: [0u8; 17],
        };
        proof {
            assert(r.broker_id@ =~= spec_zeroed(11));
            assert(r.investor_id@ =~= spec_zeroed(13));
            assert(r.parked_order_id@ =~= spec_zeroed(13));
            assert(r.invest_unit_id@ =~= spec_zeroed(17));
        }
        r
    }
}

impl RemoveParkedOrderField {
    /// Builds the request from text fields, GB18030-encoded and framed
    /// to their widths; unset fields stay zero. Always succeeds.
    pub fn new(broker_id: &str, investor_id: &str, parked_order_id: &str) -> (r: CtpResult<Self>)
        ensures
            r matches Ok(v) && v.broker_id@ == spec_field(broker_id@, 11) && v.investor_id@ == spec_field(investor_id@, 13) && v.parked_order_id@ == spec_field(parked_order_id@, 13) && v.invest_unit_id@ == spec_zeroed(17),
    {
        let mut req = Self::default();
        req.broker_id = match GbkConverter::utf8_to_fixed_bytes::<11>(broker_id) {
            Ok(b) => b,
            Err(e) => { return Err(e) },
        };
        req.investor_id = match GbkConverter::utf8_to_fixed_bytes::<13>(investor_id) {
            Ok(b) => b,
            Err(e) => { return Err(e) },
        };
        req.parked_order_id = match GbkConverter::utf8_to_fixed_bytes::<13>(parked_order_id) {
            Ok(b) => b,
            Err(e) => { return Err(e) },
        };
        Ok(req)
    }
}

/// Removal of a parked order action.
#[derive(Debug, Clone, Copy)]
pub struct RemoveParkedOrderActionField {
    pub broker_id: [u8; 11],
    pub investor_id: [u8; 13],
    pub parked_order_action_id: [u8; 13],
    pub invest_unit_id: [u8; 17],
}

impl Default for RemoveParkedOrderActionField {
    fn default() -> (r: Self)
        ensures
            r.broker_id@ == spec_zeroed(11),
            r.investor_id@ == spec_zeroed(13),
            r.parked_order_action_id@ == spec_zeroed(13),
            r.invest_unit_id@ == spec_zeroed(17),
    {
        let r = RemoveParkedOrderActionField {
            broker_id: [0u8; 11],
            investor_id: [0u8; 13],
            parked_order_action_id: [0u8; 13],
            invest_unit_id: [0u8; 17],
        };
        proof {
            assert(r.broker_id@ =~= spec_zeroed(11));
            assert(r.investor_id@ =~= spec_zeroed(13));
            assert(r.parked_order_action_id@ =~= spec_zeroed(13));
            assert(r.invest_unit_id@ =~= spec_zeroed(17));
        }
        r
    }
}

impl RemoveParkedOrderActionField {
    /// Builds the request from text fields, GB18030-encoded and framed
    /// to their widths; unset fields stay zero. Always succeeds.
    pub fn new(broker_id: &str, investor_id: &str, parked_order_action_id: &str) -> (r: CtpResult<Self>)
        ensures
            r matches Ok(v) && v.broker_id@ == spec_field(broker_id@, 11) && v.investor_id@ == spec_field(investor_id@, 13) && v.parked_order_action_id@ == spec_field(parked_order_action_id@, 13) && v.invest_unit_id@ == spec_zeroed(17),
    {
        let mut req = Self::default();
        req.broker_id = match GbkConverter::utf8_to_fixed_bytes::<11>(broker_id) {
            Ok(b) => b,
            Err(e) => { return Err(e) },
        };
        req.investor_id = match GbkConverter::utf8_to_fixed_bytes::<13>(investor_id) {
            Ok(b) => b,
            Err(e) => { return Err(e) },
        };
        req.parked_order_action_id = match GbkConverter::utf8_to_fixed_bytes::<13>(parked_order_action_id) {
            Ok(b) => b,
            Err(e) => { return Err(e) },
        };
        Ok(req)
    }
}

/// A largest-order-volume query.
#[derive(Debug, Clone, Copy)]
pub struct QryMaxOrderVolumeField {
    pub broker_id: [u8; 11],
    pub investor_id: [u8; 13],
    pub instrument_id: [u8; 31],
    pub direction: u8,
    pub offset_flag: u8,
    pub hedge_flag: u8,
    pub max_volume: i32,
    pub exchange_id: [u8; 9],
    pub invest_unit_id: [u8; 17],
}

impl Default for QryMaxOrderVolumeField {
    fn default() -> (r: Self)
        ensures
            r.broker_id@ == spec_zeroed(11),
            r.investor_id@ == spec_zeroed(13),
            r.instrument_id@ == spec_zeroed(31),
            r.direction == 0,
            r.offset_flag == 0,
            r.hedge_flag == 0,
            r.max_volume == 0,
            r.exchange_id@ == spec_zeroed(9),
            r.invest_unit_id@ == spec_zeroed(17),
    {
        let r = QryMaxOrderVolumeField {
            broker_id: [0u8; 11],
            investor_id: [0u8; 13],
            instrument_id: [0u8; 31],
            direction: 0,
            offset_flag: 0,
            hedge_flag: 0,
            max_volume: 0,
            exchange_id: [0u8; 9],
            invest_unit_id: [0u8; 17],
        };
        proof {
            assert(r.broker_id@ =~= spec_zeroed(11));
            assert(r.investor_id@ =~= spec_zeroed(13));
            assert(r.instrument_id@ =~= spec_zeroed(31));
            assert(r.exchange_id@ =~= spec_zeroed(9));
            assert(r.invest_unit_id@ =~= spec_zeroed(17));
        }
        r
    }
}

impl QryMaxOrderVolumeField {
    /// Builds the request from text fields, GB18030-encoded and framed
    /// to their widths; unset fields stay zero. Always succeeds.
    pub fn new(broker_id: &str, investor_id: &str, instrument_id: &str, direction: u8) -> (r: CtpResult<Self>)
        ensures
            r matches Ok(v) && v.broker_id@ == spec_field(broker_id@, 11) && v.investor_id@ == spec_field(investor_id@, 13) && v.instrument_id@ == spec_field(instrument_id@, 31) && v.direction == direction && v.offset_flag == 0 && v.hedge_flag == 0 && v.max_volume == 0 && v.exchange_id@ == spec_zeroed(9) && v.invest_unit_id@ == spec_zeroed(17),
    {
        let mut req = Self::default();
        req.broker_id = match GbkConverter::utf8_to_fixed_bytes::<11>(broker_id) {
            Ok(b) => b,
            Err(e) => { return Err(e) },
        };
        req.investor_id = match GbkConverter::utf8_to_fixed_bytes::<13>(investor_id) {
            Ok(b) => b,
            Err(e) => { return Err(e) },
        };
        req.instrument_id = match GbkConverter::utf8_to_fixed_bytes::<31>(instrument_id) {
            Ok(b) => b,
            Err(e) => { return Err(e) },
        };
        req.direction = direction;
        Ok(req)
    }
}

/// A depth-market-data query.
#[derive(Debug, Clone, Copy)]
pub struct QryDepthMarketDataField {
    pub instrument_id: [u8; 31],
    pub exchange_id: [u8; 9],
}

impl Default for QryDepthMarketDataField {
    fn default() -> (r: Self)
        ensures
            r.instrument_id@ == spec_zeroed(31),
            r.exchange_id@ == spec_zeroed(9),
    {
        let r = QryDepthMarketDataField {
            instrument_id: [0u8; 31],
            exchange_id: [0u8; 9],
        };
        proof {
            assert(r.instrument_id@ =~= spec_zeroed(31));
            assert(r.exchange_id@ =~= spec_zeroed(9));
        }
        r
    }
}

impl QryDepthMarketDataField {
    /// Builds an empty query matching everything.
    pub fn new() -> (r: Self)
        ensures
                r.instrument_id@ == spec_zeroed(31),
                r.exchange_id@ == spec_zeroed(9),
    {
        Self::default()
    }

    /// Returns the request with the named field set from text. Always
    /// succeeds.
    pub fn with_instrument_id(self, instrument_id: &str) -> (r: CtpResult<Self>)
        ensures
            r matches Ok(v) && v == (Self { instrument_id: v.instrument_id, ..self }) && v.instrument_id@ == spec_field(instrument_id@, 31),
    {
        let mut req = self;
        req.instrument_id = match GbkConverter::utf8_to_fixed_bytes::<31>(instrument_id) {
            Ok(b) => b,
            Err(e) => { return Err(e) },
        };
        Ok(req)
    }
}

/// A settlement-result query.
#[derive(Debug, Clone, Copy)]
pub struct QrySettlementInfoField {
    pub broker_id: [u8; 11],
    pub investor_id: [u8; 13],
    pub trading_day: [u8; 9],
    pub account_id: [u8; 13],
    pub currency_id: [u8; 4],
}

impl Default for QrySettlementInfoField {
    fn default() -> (r: Self)
        ensures
            r.broker_id@ == spec_zeroed(11),
            r.investor_id@ == spec_zeroed(13),
            r.trading_day@ == spec_zeroed(9),
            r.account_id@ == spec_zeroed(13),
            r.currency_id@ == spec_zeroed(4),
    {
        let r = QrySettlementInfoField {
            broker_id: [0u8; 11],
            investor_id: [0u8; 13],
            trading_day: [0u8; 9],
            account_id: [0u8; 13],
            currency_id: [0u8; 4],
        };
        proof {
            assert(r.broker_id@ =~= spec_zeroed(11));
            assert(r.investor_id@ =~= spec_zeroed(13));
            assert(r.trading_day@ =~= spec_zeroed(9));
            assert(r.account_id@ =~= spec_zeroed(13));
            assert(r.currency_id@ =~= spec_zeroed(4));
        }
        r
    }
}

impl QrySettlementInfoField {
    /// Builds the request from text fields, GB18030-encoded and framed
    /// to their widths; unset fields stay zero. Always succeeds.
    pub fn new(broker_id: &str, investor_id: &str) -> (r: CtpResult<Self>)
        ensures
            r matches Ok(v) && v.broker_id@ == spec_field(broker_id@, 11) && v.investor_id@ == spec_field(investor_id@, 13) && v.trading_day@ == spec_zeroed(9) && v.account_id@ == spec_zeroed(13) && v.currency_id@ == spec_zeroed(4),
    {
        let mut req = Self::default();
        req.broker_id = match GbkConverter::utf8_to_fixed_bytes::<11>(broker_id) {
            Ok(b) => b,
            Err(e) => { return Err(e) },
        };
        req.investor_id = match GbkConverter::utf8_to_fixed_bytes::<13>(investor_id) {
            Ok(b) => b,
            Err(e) => { return Err(e) },
        };
        Ok(req)
    }
}

/// A transfer-bank query.
#[derive(Debug, Clone, Copy)]
pub struct QryTransferBankField {
    pub bank_id: [u8; 4],
    pub bank_brch_id: [u8; 5],
}

impl Default for QryTransferBankField {
    fn default() -> (r: Self)
        ensures
            r.bank_id@ == spec_zeroed(4),
            r.bank_brch_id@ == spec_zeroed(5),
    {
        let r = QryTransferBankField {
            bank_id: [0u8; 4],
            bank_brch_id: [0u8; 5],
        };
        proof {
            assert(r.bank_id@ =~= spec_zeroed(4));
            assert(r.bank_brch_id@ =~= spec_zeroed(5));
        }
        r
    }
}

impl QryTransferBankField {
    /// Builds an empty query matching everything.
    pub fn new() -> (r: Self)
        ensures
                r.bank_id@ == spec_zeroed(4),
                r.bank_brch_id@ == spec_zeroed(5),
    {
        Self::default()
    }
}

/// An investor-position-detail query.
#[derive(Debug, Clone, Copy)]
pub struct QryInvestorPositionDetailField {
    pub broker_id: [u8; 11],
    pub investor_id: [u8; 13],
    pub instrument_id: [u8; 31],
    pub exchange_id: [u8; 9],
    pub invest_unit_id: [u8; 17],
}

impl Default for QryInvestorPositionDetailField {
    fn default() -> (r: Self)
        ensures
            r.broker_id@ == spec_zeroed(11),
            r.investor_id@ == spec_zeroed(13),
            r.instrument_id@ == spec_zeroed(31),
            r.exchange_id@ == spec_zeroed(9),
            r.invest_unit_id@ == spec_zeroed(17),
    {
        let r = QryInvestorPositionDetailField {
            broker_id: [0u8; 11],
            investor_id: [0u8; 13],
            instrument_id: [0u8; 31],
            exchange_id: [0u8; 9],
            invest_unit_id: [0u8; 17],
        };
        proof {
            assert(r.broker_id@ =~= spec_zeroed(11));
            assert(r.investor_id@ =~= spec_zeroed(13));
            assert(r.instrument_id@ =~= spec_zeroed(31));
            assert(r.exchange_id@ =~= spec_zeroed(9));
            assert(r.invest_unit_id@ =~= spec_zeroed(17));
        }
        r
    }
}

impl QryInvestorPositionDetailField {
    /// Builds the request from text fields, GB18030-encoded and framed
    /// to their widths; unset fields stay zero. Always succeeds.
    pub fn new(broker_id: &str, investor_id: &str) -> (r: CtpResult<Self>)
        ensures
            r matches Ok(v) && v.broker_id@ == spec_field(broker_id@, 11) && v.investor_id@ == spec_field(investor_id@, 13) && v.instrument_id@ == spec_zeroed(31) && v.exchange_id@ == spec_zeroed(9) && v.invest_unit_id@ == spec_zeroed(17),
    {
        let mut req = Self::default();
        req.broker_id = match GbkConverter::utf8_to_fixed_bytes::<11>(broker_id) {
            Ok(b) => b,
            Err(e) => { return Err(e) },
        };
        req.investor_id = match GbkConverter::utf8_to_fixed_bytes::<13>(investor_id) {
            Ok(b) => b,
            Err(e) => { return Err(e) },
        };
        Ok(req)
    }
}

/// A notice query.
#[derive(Debug, Clone, Copy)]
pub struct QryNoticeField {
    pub broker_id: [u8; 11],
}

impl Default for QryNoticeField {
    fn default() -> (r: Self)
        ensures
            r.broker_id@ == spec_zeroed(11),
    {
        let r = QryNoticeField {
            broker_id: [0u8; 11],
        };
        proof {
            assert(r.broker_id@ =~= spec_zeroed(11));
        }
        r
    }
}

impl QryNoticeField {
    /// Builds the request from text fields, GB18030-encoded and framed
    /// to their widths; unset fields stay zero. Always succeeds.
    pub fn new(broker_id: &str) -> (r: CtpResult<Self>)
        ensures
            r matches Ok(v) && v.broker_id@ == spec_field(broker_id@, 11),
    {
        let mut req = Self::default();
        req.broker_id = match GbkConverter::utf8_to_fixed_bytes::<11>(broker_id) {
            Ok(b) => b,
            Err(e) => { return Err(e) },
        };
        Ok(req)
    }
}

/// An exchange record.
#[derive(Debug, Clone, Copy)]
pub struct ExchangeField {
    pub exchange_id: [u8; 9],
    pub exchange_name: [u8; 61],
    pub exchange_property: u8,
}

impl Default for ExchangeField {
    fn default() -> (r: Self)
        ensures
            r.exchange_id@ == spec_zeroed(9),
            r.exchange_name@ == spec_zeroed(61),
            r.exchange_property == 0,
    {
        let r = ExchangeField {
            exchange_id: [0u8; 9],
            exchange_name: [0u8; 61],
            exchange_property: 0,
        };
        proof {
            assert(r.exchange_id@ =~= spec_zeroed(9));
            assert(r.exchange_name@ =~= spec_zeroed(61));
        }
        r
    }
}

/// A settlement-result record.
#[derive(Debug, Clone, Copy)]
pub struct SettlementInfoField {
    pub trading_day: [u8; 9],
    pub settlement_id: i32,
    pub broker_id: [u8; 11],
    pub investor_id: [u8; 13],
    pub sequence_no: i32,
    pub content: [u8; 1001],
    pub account_id: [u8; 13],
    pub currency_id: [u8; 4],
}

impl Default for SettlementInfoField {
    fn default() -> (r: Self)
        ensures
            r.trading_day@ == spec_zeroed(9),
            r.settlement_id == 0,
            r.broker_id@ == spec_zeroed(11),
            r.investor_id@ == spec_zeroed(13),
            r.sequence_no == 0,
            r.content@ == spec_zeroed(1001),
            r.account_id@ == spec_zeroed(13),
            r.currency_id@ == spec_zeroed(4),
    {
        let r = SettlementInfoField {
            trading_day: [0u8; 9],
            settlement_id: 0,
            broker_id: [0u8; 11],
            investor_id: [0u8; 13],
            sequence_no: 0,
            content: [0u8; 1001],
            account_id: [0u8; 13],
            currency_id: [0u8; 4],
        };
        proof {
            assert(r.trading_day@ =~= spec_zeroed(9));
            assert(r.broker_id@ =~= spec_zeroed(11));
            assert(r.investor_id@ =~= spec_zeroed(13));
            assert(r.content@ =~= spec_zeroed(1001));
            assert(r.account_id@ =~= spec_zeroed(13));
            assert(r.currency_id@ =~= spec_zeroed(4));
        }
        r
    }
}

/// A transfer-bank record.
#[derive(Debug, Clone, Copy)]
pub struct TransferBankField {
    pub bank_id: [u8; 4],
    pub bank_brch_id: [u8; 5],
    pub bank_name: [u8; 101],
    pub is_active: i32,
}

impl Default for TransferBankField {
    fn default() -> (r: Self)
        ensures
            r.bank_id@ == spec_zeroed(4),
            r.bank_brch_id@ == spec_zeroed(5),
            r.bank_name@ == spec_zeroed(101),
            r.is_active == 0,
    {
        let r = TransferBankField {
            bank_id: [0u8; 4],
            bank_brch_id: [0u8; 5],
            bank_name: [0u8; 101],
            is_active: 0,
        };
        proof {
            assert(r.bank_id@ =~= spec_zeroed(4));
            assert(r.bank_brch_id@ =~= spec_zeroed(5));
            assert(r.bank_name@ =~= spec_zeroed(101));
        }
        r
    }
}

/// A notice record.
#[derive(Debug, Clone, Copy)]
pub struct NoticeField {
    pub broker_id: [u8; 11],
    pub content: [u8; 501],
    pub url_link: [u8; 201],
}

impl Default for NoticeField {
    fn default() -> (r: Self)
        ensures
            r.broker_id@ == spec_zeroed(11),
            r.content@ == spec_zeroed(501),
            r.url_link@ == spec_zeroed(201),
    {
        let r = NoticeField {
            broker_id: [0u8; 11],
            content: [0u8; 501],
            url_link: [0u8; 201],
        };
        proof {
            assert(r.broker_id@ =~= spec_zeroed(11));
            assert(r.content@ =~= spec_zeroed(501));
            assert(r.url_link@ =~= spec_zeroed(201));
        }
        r
    }
}

/// An investor record.
#[derive(Debug, Clone, Copy)]
pub struct InvestorField {
    pub investor_id: [u8; 13],
    pub broker_id: [u8; 11],
    pub investor_group_id: [u8; 13],
    pub investor_name: [u8; 81],
    pub identity_card_type: u8,
    pub identity_card_no: [u8; 51],
    pub is_active: i32,
    pub telephone: [u8; 41],
    pub address: [u8; 101],
    pub open_date: [u8; 9],
    pub mobile: [u8; 41],
    pub comm_model_id: [u8; 13],
    pub margin_model_id: [u8; 13],
}

impl Default for InvestorField {
    fn default() -> (r: Self)
        ensures
            r.investor_id@ == spec_zeroed(13),
            r.broker_id@ == spec_zeroed(11),
            r.investor_group_id@ == spec_zeroed(13),
            r.investor_name@ == spec_zeroed(81),
            r.identity_card_type == 0,
            r.identity_card_no@ == spec_zeroed(51),
            r.is_active == 0,
            r.telephone@ == spec_zeroed(41),
            r.address@ == spec_zeroed(101),
            r.open_date@ == spec_zeroed(9),
            r.mobile@ == spec_zeroed(41),
            r.comm_model_id@ == spec_zeroed(13),
            r.margin_model_id@ == spec_zeroed(13),
    {
        let r = InvestorField {
            investor_id: [0u8; 13],
            broker_id: [0u8; 11],
            investor_group_id: [0u8; 13],
            investor_name: [0u8; 81],
            identity_card_type: 0,
            identity_card_no: [0u8; 51],
            is_active: 0,
            telephone: [0u8; 41],
            address: [0u8; 101],
            open_date: [0u8; 9],
            mobile: [0u8; 41],
            comm_model_id: [0u8; 13],
            margin_model_id: [0u8; 13],
        };
        proof {
            assert(r.investor_id@ =~= spec_zeroed(13));
            assert(r.broker_id@ =~= spec_zeroed(11));
            assert(r.investor_group_id@ =~= spec_zeroed(13));
            assert(r.investor_name@ =~= spec_zeroed(81));
            assert(r.identity_card_no@ =~= spec_zeroed(51));
            assert(r.telephone@ =~= spec_zeroed(41));
            assert(r.address@ =~= spec_zeroed(101));
            assert(r.open_date@ =~= spec_zeroed(9));
            assert(r.mobile@ =~= spec_zeroed(41));
            assert(r.comm_model_id@ =~= spec_zeroed(13));
            assert(r.margin_model_id@ =~= spec_zeroed(13));
        }
        r
    }
}

/// A subscription acknowledgement naming one instrument.
#[derive(Debug, Clone, Copy)]
pub struct SpecificInstrumentField {
    pub reserve1: [u8; 31],
    pub instrument_id: [u8; 81],
}

impl Default for SpecificInstrumentField {
    fn default() -> (r: Self)
        ensures
            r.reserve1@ == spec_zeroed(31),
            r.instrument_id@ == spec_zeroed(81),
    {
        let r = SpecificInstrumentField {
            reserve1: [0u8; 31],
            instrument_id: [0u8; 81],
        };
        proof {
            assert(r.reserve1@ =~= spec_zeroed(31));
            assert(r.instrument_id@ =~= spec_zeroed(81));
        }
        r
    }
}

/// A quote-request notification.
#[derive(Debug, Clone, Copy)]
pub struct ForQuoteRspField {
    pub trading_day: [u8; 9],
    pub instrument_id: [u8; 31],
    pub for_quote_ref: [u8; 13],
    pub user_id: [u8; 16],
    pub for_quote_local_id: [u8; 13],
    pub exchange_id: [u8; 9],
    pub participant_id: [u8; 11],
    pub client_id: [u8; 11],
    pub exchange_inst_id: [u8; 31],
    pub trader_id: [u8; 21],
    pub install_id: i32,
    pub insert_time: [u8; 9],
    pub for_quote_local_id2: [u8; 13],
    pub action_day: [u8; 9],
}

impl Default for ForQuoteRspField {
    fn default() -> (r: Self)
        ensures
            r.trading_day@ == spec_zeroed(9),
            r.instrument_id@ == spec_zeroed(31),
            r.for_quote_ref@ == spec_zeroed(13),
            r.user_id@ == spec_zeroed(16),
            r.for_quote_local_id@ == spec_zeroed(13),
            r.exchange_id@ == spec_zeroed(9),
            r.participant_id@ == spec_zeroed(11),
            r.client_id@ == spec_zeroed(11),
            r.exchange_inst_id@ == spec_zeroed(31),
            r.trader_id@ == spec_zeroed(21),
            r.install_id == 0,
            r.insert_time@ == spec_zeroed(9),
            r.for_quote_local_id2@ == spec_zeroed(13),
            r.action_day@ == spec_zeroed(9),
    {
        let r = ForQuoteRspField {
            trading_day: [0u8; 9],
            instrument_id: [0u8; 31],
            for_quote_ref: [0u8; 13],
            user_id: [0u8; 16],
            for_quote_local_id: [0u8; 13],
            exchange_id: [0u8; 9],
            participant_id: [0u8; 11],
            client_id: [0u8; 11],
            exchange_inst_id: [0u8; 31],
            trader_id: [0u8; 21],
            install_id: 0,
            insert_time: [0u8; 9],
            for_quote_local_id2: [0u8; 13],
            action_day: [0u8; 9],
        };
        proof {
            assert(r.trading_day@ =~= spec_zeroed(9));
            assert(r.instrument_id@ =~= spec_zeroed(31));
            assert(r.for_quote_ref@ =~= spec_zeroed(13));
            assert(r.user_id@ =~= spec_zeroed(16));
            assert(r.for_quote_local_id@ =~= spec_zeroed(13));
            assert(r.exchange_id@ =~= spec_zeroed(9));
            assert(r.participant_id@ =~= spec_zeroed(11));
            assert(r.client_id@ =~= spec_zeroed(11));
            assert(r.exchange_inst_id@ =~= spec_zeroed(31));
            assert(r.trader_id@ =~= spec_zeroed(21));
            assert(r.insert_time@ =~= spec_zeroed(9));
            assert(r.for_quote_local_id2@ =~= spec_zeroed(13));
            assert(r.action_day@ =~= spec_zeroed(9));
        }
        r
    }
}

impl SpecificInstrumentField {
    /// Decodes the instrument identifier to UTF-8. Always succeeds.
    pub fn get_instrument_id(&self) -> (r: CtpResult<String>)
        ensures
            r matches Ok(s) && s@ == gb18030_decoding(spec_trim_nulls(self.instrument_id@)),
    {
        GbkConverter::fixed_bytes_to_utf8(&self.instrument_id)
    }
}

} // verus!
