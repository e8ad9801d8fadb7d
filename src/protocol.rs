//! Fixed accounts and instruction selectors of the launch protocol.
use vstd::prelude::*;

verus! {

/// The launch protocol's program.
pub const PUMP_PROGRAM_ID: [u8; 32] = [
    1, 86, 224, 246, 147, 102, 90, 207, 68, 219, 21, 104, 191, 23, 91, 170, 81, 137, 203, 151, 245,
    210, 255, 59, 101, 93, 43, 182, 253, 109, 24, 176,
];

/// The program that trades are routed through.
pub const PROXY_PROGRAM: [u8; 32] = [
    145, 33, 144, 122, 240, 141, 197, 204, 72, 66, 111, 19, 36, 108, 79, 72, 41, 56, 165, 235, 63,
    36, 215, 231, 0, 59, 32, 116, 203, 205, 217, 190,
];

/// The protocol's global configuration account.
pub const GLOBAL_ACCOUNT: [u8; 32] = [
    58, 134, 94, 105, 238, 15, 84, 128, 202, 188, 246, 99, 87, 228, 220, 47, 24, 213, 141, 69, 193,
    234, 116, 137, 251, 55, 35, 217, 121, 60, 114, 166,
];

/// The account that receives the protocol's fees.
pub const FEE_RECIPIENT: [u8; 32] = [
    74, 194, 248, 208, 221, 92, 188, 151, 227, 40, 156, 25, 124, 181, 6, 42, 84, 243, 217, 86, 185,
    206, 110, 81, 21, 249, 101, 103, 170, 92, 179, 230,
];

/// The protocol's event authority.
pub const EVENT_AUTHORITY: [u8; 32] = [
    172, 241, 54, 235, 1, 252, 28, 78, 136, 61, 35, 200, 181, 132, 74, 181, 154, 55, 246, 106, 221,
    87, 197, 233, 172, 59, 83, 224, 89, 211, 92, 100,
];

/// The rent sysvar.
pub const SYSVAR_RENT: [u8; 32] = [
    6, 167, 213, 23, 25, 44, 92, 81, 33, 140, 201, 76, 61, 74, 241, 127, 88, 218, 238, 8, 155, 161,
    253, 68, 227, 219, 217, 138, 0, 0, 0, 0,
];

/// The system program (all zero bytes).
pub const SYSTEM_PROGRAM: [u8; 32] = [
    0, 0, 0, 0, 0, 0, 0, 0, 0, 0, 0, 0, 0, 0, 0, 0, 0, 0, 0, 0, 0, 0, 0, 0, 0, 0, 0, 0, 0, 0, 0, 0,
];

/// The token program.
pub const TOKEN_PROGRAM: [u8; 32] = [
    6, 221, 246, 225, 215, 101, 161, 147, 217, 203, 225, 70, 206, 235, 121, 172, 28, 180, 133, 237,
    95, 91, 55, 145, 58, 140, 245, 133, 126, 255, 0, 169,
];

/// The associated token account program.
pub const ASSOCIATED_TOKEN_PROGRAM: [u8; 32] = [
    140, 151, 37, 143, 78, 36, 137, 241, 187, 61, 16, 41, 20, 142, 13, 131, 11, 90, 19, 153, 218,
    255, 16, 132, 4, 142, 123, 216, 219, 233, 248, 89,
];

/// The account whose appearance marks a transaction of interest.
pub const TOKEN_CREATOR: [u8; 32] = [
    6, 197, 193, 206, 99, 141, 37, 103, 210, 100, 104, 176, 94, 185, 81, 209, 162, 141, 204, 110,
    18, 52, 130, 181, 198, 117, 20, 151, 112, 230, 43, 242,
];

/// Selector of the routed buy instruction.
pub const PUMP_BUY_SELECTOR: [u8; 8] = [82, 225, 119, 231, 78, 29, 45, 70];

/// Selector of the routed sell instruction.
pub const PUMP_SELL_SELECTOR: [u8; 8] = [83, 225, 119, 231, 78, 29, 45, 70];

/// Selector of the routed "create associated token account" instruction.
pub const ATA_SELECTOR: [u8; 8] = [22, 51, 53, 97, 247, 184, 54, 78];

/// Seed of a token's bonding-curve address.
pub const BONDING_CURVE_SEED: [u8; 13] = [
    98, 111, 110, 100, 105, 110, 103, 45, 99, 117, 114, 118, 101,
];

} // verus!
