//! The server versions from which on a message holds a field, or no longer holds it.
use vstd::prelude::*;

verus! {

pub const MIN_SERVER_VER_FRACTIONAL_POSITIONS: i32 = 101;

pub const MIN_SERVER_VER_MODELS_SUPPORT: i32 = 103;

pub const MIN_SERVER_VER_PAST_LIMIT: i32 = 109;

pub const MIN_SERVER_VER_MD_SIZE_MULTIPLIER: i32 = 110;

pub const MIN_SERVER_VER_SERVICE_DATA_TYPE: i32 = 120;

pub const MIN_SERVER_VER_AGG_GROUP: i32 = 121;

pub const MIN_SERVER_VER_UNDERLYING_INFO: i32 = 122;

pub const MIN_SERVER_VER_SYNT_REALTIME_BARS: i32 = 124;

pub const MIN_SERVER_VER_MARKET_RULES: i32 = 126;

pub const MIN_SERVER_VER_UNREALIZED_PNL: i32 = 129;

pub const MIN_SERVER_VER_MARKET_CAP_PRICE: i32 = 131;

pub const MIN_SERVER_VER_PRE_OPEN_BID_ASK: i32 = 132;

pub const MIN_SERVER_VER_REAL_EXPIRATION_DATE: i32 = 134;

pub const MIN_SERVER_VER_REALIZED_PNL: i32 = 135;

pub const MIN_SERVER_VER_LAST_LIQUIDITY: i32 = 136;

pub const MIN_SERVER_VER_ORDER_CONTAINER: i32 = 145;

pub const MIN_SERVER_VER_SMART_DEPTH: i32 = 146;

} // verus!
