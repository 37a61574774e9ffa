//! The keys of the engine options that the client sets. A key is the sum of
//! the base of its value's type and its number.

use vstd::prelude::*;

verus! {

/// Base of the options whose value is a long.
pub const LONG: i32 = 0;

/// Base of the options whose value is the address of an object.
pub const OBJECTPOINT: i32 = 10000;

/// Base of the options whose value is the address of a function.
pub const FUNCTIONPOINT: i32 = 20000;

pub const WRITEDATA: i32 = OBJECTPOINT + 1;

pub const URL: i32 = OBJECTPOINT + 2;

pub const READDATA: i32 = OBJECTPOINT + 9;

pub const ERRORBUFFER: i32 = OBJECTPOINT + 10;

pub const WRITEFUNCTION: i32 = FUNCTIONPOINT + 11;

pub const READFUNCTION: i32 = FUNCTIONPOINT + 12;

pub const TIMEOUT: i32 = LONG + 13;

pub const USERAGENT: i32 = OBJECTPOINT + 18;

pub const HTTPHEADER: i32 = OBJECTPOINT + 23;

pub const HEADERDATA: i32 = OBJECTPOINT + 29;

pub const CUSTOMREQUEST: i32 = OBJECTPOINT + 36;

pub const VERBOSE: i32 = LONG + 41;

pub const NOPROGRESS: i32 = LONG + 43;

pub const NOBODY: i32 = LONG + 44;

pub const UPLOAD: i32 = LONG + 46;

pub const POST: i32 = LONG + 47;

pub const FOLLOWLOCATION: i32 = LONG + 52;

pub const PROGRESSFUNCTION: i32 = FUNCTIONPOINT + 56;

pub const PROGRESSDATA: i32 = OBJECTPOINT + 57;

pub const AUTOREFERER: i32 = LONG + 58;

pub const CONNECTTIMEOUT: i32 = LONG + 78;

pub const HEADERFUNCTION: i32 = FUNCTIONPOINT + 79;

pub const HTTPGET: i32 = LONG + 80;

pub const NOSIGNAL: i32 = LONG + 99;

} // verus!
